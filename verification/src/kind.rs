//! Closed classification of the native library's AST node kinds.
//!
//! The native library tags every AST node with an integer kind. The tags are
//! laid out in contiguous ranges, one range per syntactic category, and the
//! classification predicates test membership by range rather than by listing
//! members. `Kind` mirrors that integer space as a closed enumeration;
//! [`Kind::from_code`] is the explicit, total mapping from the native
//! integer, and [`Kind::code`] gives each member's native tag back.

use vstd::prelude::*;

verus! {

/// First native tag of the primary declaration range.
pub const FIRST_DECL: i32 = 1;
/// Last native tag of the primary declaration range.
pub const LAST_DECL: i32 = 39;
/// First native tag of the reference range.
pub const FIRST_REF: i32 = 40;
/// Last native tag of the reference range.
pub const LAST_REF: i32 = 50;
/// First native tag of the invalid-marker range.
pub const FIRST_INVALID: i32 = 70;
/// Last native tag of the invalid-marker range.
pub const LAST_INVALID: i32 = 73;
/// First native tag of the expression range.
pub const FIRST_EXPR: i32 = 100;
/// Last native tag of the expression range.
pub const LAST_EXPR: i32 = 148;
/// First native tag of the statement range.
pub const FIRST_STMT: i32 = 200;
/// Last native tag of the statement range.
pub const LAST_STMT: i32 = 279;
/// Native tag of the cursor that represents the translation unit itself.
pub const TRANSLATION_UNIT_CODE: i32 = 300;
/// First native tag of the attribute range.
pub const FIRST_ATTR: i32 = 400;
/// Last native tag of the attribute range.
pub const LAST_ATTR: i32 = 419;
/// First native tag of the preprocessing range.
pub const FIRST_PREPROCESSING: i32 = 500;
/// Last native tag of the preprocessing range.
pub const LAST_PREPROCESSING: i32 = 503;
/// First native tag of the extra-declaration range.
pub const FIRST_EXTRA_DECL: i32 = 600;
/// Last native tag of the extra-declaration range.
pub const LAST_EXTRA_DECL: i32 = 603;
/// Native tag of a code-completion overload candidate.
pub const OVERLOAD_CANDIDATE_CODE: i32 = 700;

/// The syntactic kind of one AST node, mirroring the native library's closed
/// integer kind space.
#[derive(Debug, Clone, Copy, PartialEq, Eq, Structural)]
pub enum Kind {
    // Declarations (codes 1 through 39)
    UnexposedDecl,
    StructDecl,
    UnionDecl,
    ClassDecl,
    EnumDecl,
    FieldDecl,
    EnumConstantDecl,
    FunctionDecl,
    VarDecl,
    ParmDecl,
    ObjCInterfaceDecl,
    ObjCCategoryDecl,
    ObjCProtocolDecl,
    ObjCPropertyDecl,
    ObjCIvarDecl,
    ObjCInstanceMethodDecl,
    ObjCClassMethodDecl,
    ObjCImplementationDecl,
    ObjCCategoryImplDecl,
    TypedefDecl,
    CXXMethod,
    Namespace,
    LinkageSpec,
    Constructor,
    Destructor,
    ConversionFunction,
    TemplateTypeParameter,
    NonTypeTemplateParameter,
    TemplateTemplateParameter,
    FunctionTemplate,
    ClassTemplate,
    ClassTemplatePartialSpecialization,
    NamespaceAlias,
    UsingDirective,
    UsingDeclaration,
    TypeAliasDecl,
    ObjCSynthesizeDecl,
    ObjCDynamicDecl,
    CXXAccessSpecifier,
    // References (codes 40 through 50)
    ObjCSuperClassRef,
    ObjCProtocolRef,
    ObjCClassRef,
    TypeRef,
    CXXBaseSpecifier,
    TemplateRef,
    NamespaceRef,
    MemberRef,
    LabelRef,
    OverloadedDeclRef,
    VariableRef,
    // Error conditions (codes 70 through 73)
    InvalidFile,
    NoDeclFound,
    NotImplemented,
    InvalidCode,
    // Expressions (codes 100 through 148)
    UnexposedExpr,
    DeclRefExpr,
    MemberRefExpr,
    CallExpr,
    ObjCMessageExpr,
    BlockExpr,
    IntegerLiteral,
    FloatingLiteral,
    ImaginaryLiteral,
    StringLiteral,
    CharacterLiteral,
    ParenExpr,
    UnaryOperator,
    ArraySubscriptExpr,
    BinaryOperator,
    CompoundAssignOperator,
    ConditionalOperator,
    CStyleCastExpr,
    CompoundLiteralExpr,
    InitListExpr,
    AddrLabelExpr,
    StmtExpr,
    GenericSelectionExpr,
    GNUNullExpr,
    CXXStaticCastExpr,
    CXXDynamicCastExpr,
    CXXReinterpretCastExpr,
    CXXConstCastExpr,
    CXXFunctionalCastExpr,
    CXXTypeidExpr,
    CXXBoolLiteralExpr,
    CXXNullPtrLiteralExpr,
    CXXThisExpr,
    CXXThrowExpr,
    CXXNewExpr,
    CXXDeleteExpr,
    UnaryExpr,
    ObjCStringLiteral,
    ObjCEncodeExpr,
    ObjCSelectorExpr,
    ObjCProtocolExpr,
    ObjCBridgedCastExpr,
    PackExpansionExpr,
    SizeOfPackExpr,
    LambdaExpr,
    ObjCBoolLiteralExpr,
    ObjCSelfExpr,
    OMPArraySectionExpr,
    ObjCAvailabilityCheckExpr,
    // Statements (codes 200 through 279)
    UnexposedStmt,
    LabelStmt,
    CompoundStmt,
    CaseStmt,
    DefaultStmt,
    IfStmt,
    SwitchStmt,
    WhileStmt,
    DoStmt,
    ForStmt,
    GotoStmt,
    IndirectGotoStmt,
    ContinueStmt,
    BreakStmt,
    ReturnStmt,
    GCCAsmStmt,
    ObjCAtTryStmt,
    ObjCAtCatchStmt,
    ObjCAtFinallyStmt,
    ObjCAtThrowStmt,
    ObjCAtSynchronizedStmt,
    ObjCAutoreleasePoolStmt,
    ObjCForCollectionStmt,
    CXXCatchStmt,
    CXXTryStmt,
    CXXForRangeStmt,
    SEHTryStmt,
    SEHExceptStmt,
    SEHFinallyStmt,
    MSAsmStmt,
    NullStmt,
    DeclStmt,
    OMPParallelDirective,
    OMPSimdDirective,
    OMPForDirective,
    OMPSectionsDirective,
    OMPSectionDirective,
    OMPSingleDirective,
    OMPParallelForDirective,
    OMPParallelSectionsDirective,
    OMPTaskDirective,
    OMPMasterDirective,
    OMPCriticalDirective,
    OMPTaskyieldDirective,
    OMPBarrierDirective,
    OMPTaskwaitDirective,
    OMPFlushDirective,
    SEHLeaveStmt,
    OMPOrderedDirective,
    OMPAtomicDirective,
    OMPForSimdDirective,
    OMPParallelForSimdDirective,
    OMPTargetDirective,
    OMPTeamsDirective,
    OMPTaskgroupDirective,
    OMPCancellationPointDirective,
    OMPCancelDirective,
    OMPTargetDataDirective,
    OMPTaskLoopDirective,
    OMPTaskLoopSimdDirective,
    OMPDistributeDirective,
    OMPTargetEnterDataDirective,
    OMPTargetExitDataDirective,
    OMPTargetParallelDirective,
    OMPTargetParallelForDirective,
    OMPTargetUpdateDirective,
    OMPDistributeParallelForDirective,
    OMPDistributeParallelForSimdDirective,
    OMPDistributeSimdDirective,
    OMPTargetParallelForSimdDirective,
    OMPTargetSimdDirective,
    OMPTeamsDistributeDirective,
    OMPTeamsDistributeSimdDirective,
    OMPTeamsDistributeParallelForSimdDirective,
    OMPTeamsDistributeParallelForDirective,
    OMPTargetTeamsDirective,
    OMPTargetTeamsDistributeDirective,
    OMPTargetTeamsDistributeParallelForDirective,
    OMPTargetTeamsDistributeParallelForSimdDirective,
    OMPTargetTeamsDistributeSimdDirective,
    // The translation-unit root (code 300)
    TranslationUnit,
    // Attributes (codes 400 through 419)
    UnexposedAttr,
    IBActionAttr,
    IBOutletAttr,
    IBOutletCollectionAttr,
    CXXFinalAttr,
    CXXOverrideAttr,
    AnnotateAttr,
    AsmLabelAttr,
    PackedAttr,
    PureAttr,
    ConstAttr,
    NoDuplicateAttr,
    CUDAConstantAttr,
    CUDADeviceAttr,
    CUDAGlobalAttr,
    CUDAHostAttr,
    CUDASharedAttr,
    VisibilityAttr,
    DLLExport,
    DLLImport,
    // Preprocessing directives (codes 500 through 503)
    PreprocessingDirective,
    MacroDefinition,
    MacroExpansion,
    InclusionDirective,
    // Extra declarations (codes 600 through 603)
    ModuleImportDecl,
    TypeAliasTemplateDecl,
    StaticAssert,
    FriendDecl,
    // Code-completion overload candidates (code 700)
    OverloadCandidate,
}

impl Kind {
    /// The native integer tag of this kind.
    pub open spec fn code(self) -> int {
        match self {
            Kind::UnexposedDecl => 1,
            Kind::StructDecl => 2,
            Kind::UnionDecl => 3,
            Kind::ClassDecl => 4,
            Kind::EnumDecl => 5,
            Kind::FieldDecl => 6,
            Kind::EnumConstantDecl => 7,
            Kind::FunctionDecl => 8,
            Kind::VarDecl => 9,
            Kind::ParmDecl => 10,
            Kind::ObjCInterfaceDecl => 11,
            Kind::ObjCCategoryDecl => 12,
            Kind::ObjCProtocolDecl => 13,
            Kind::ObjCPropertyDecl => 14,
            Kind::ObjCIvarDecl => 15,
            Kind::ObjCInstanceMethodDecl => 16,
            Kind::ObjCClassMethodDecl => 17,
            Kind::ObjCImplementationDecl => 18,
            Kind::ObjCCategoryImplDecl => 19,
            Kind::TypedefDecl => 20,
            Kind::CXXMethod => 21,
            Kind::Namespace => 22,
            Kind::LinkageSpec => 23,
            Kind::Constructor => 24,
            Kind::Destructor => 25,
            Kind::ConversionFunction => 26,
            Kind::TemplateTypeParameter => 27,
            Kind::NonTypeTemplateParameter => 28,
            Kind::TemplateTemplateParameter => 29,
            Kind::FunctionTemplate => 30,
            Kind::ClassTemplate => 31,
            Kind::ClassTemplatePartialSpecialization => 32,
            Kind::NamespaceAlias => 33,
            Kind::UsingDirective => 34,
            Kind::UsingDeclaration => 35,
            Kind::TypeAliasDecl => 36,
            Kind::ObjCSynthesizeDecl => 37,
            Kind::ObjCDynamicDecl => 38,
            Kind::CXXAccessSpecifier => 39,
            Kind::ObjCSuperClassRef => 40,
            Kind::ObjCProtocolRef => 41,
            Kind::ObjCClassRef => 42,
            Kind::TypeRef => 43,
            Kind::CXXBaseSpecifier => 44,
            Kind::TemplateRef => 45,
            Kind::NamespaceRef => 46,
            Kind::MemberRef => 47,
            Kind::LabelRef => 48,
            Kind::OverloadedDeclRef => 49,
            Kind::VariableRef => 50,
            Kind::InvalidFile => 70,
            Kind::NoDeclFound => 71,
            Kind::NotImplemented => 72,
            Kind::InvalidCode => 73,
            Kind::UnexposedExpr => 100,
            Kind::DeclRefExpr => 101,
            Kind::MemberRefExpr => 102,
            Kind::CallExpr => 103,
            Kind::ObjCMessageExpr => 104,
            Kind::BlockExpr => 105,
            Kind::IntegerLiteral => 106,
            Kind::FloatingLiteral => 107,
            Kind::ImaginaryLiteral => 108,
            Kind::StringLiteral => 109,
            Kind::CharacterLiteral => 110,
            Kind::ParenExpr => 111,
            Kind::UnaryOperator => 112,
            Kind::ArraySubscriptExpr => 113,
            Kind::BinaryOperator => 114,
            Kind::CompoundAssignOperator => 115,
            Kind::ConditionalOperator => 116,
            Kind::CStyleCastExpr => 117,
            Kind::CompoundLiteralExpr => 118,
            Kind::InitListExpr => 119,
            Kind::AddrLabelExpr => 120,
            Kind::StmtExpr => 121,
            Kind::GenericSelectionExpr => 122,
            Kind::GNUNullExpr => 123,
            Kind::CXXStaticCastExpr => 124,
            Kind::CXXDynamicCastExpr => 125,
            Kind::CXXReinterpretCastExpr => 126,
            Kind::CXXConstCastExpr => 127,
            Kind::CXXFunctionalCastExpr => 128,
            Kind::CXXTypeidExpr => 129,
            Kind::CXXBoolLiteralExpr => 130,
            Kind::CXXNullPtrLiteralExpr => 131,
            Kind::CXXThisExpr => 132,
            Kind::CXXThrowExpr => 133,
            Kind::CXXNewExpr => 134,
            Kind::CXXDeleteExpr => 135,
            Kind::UnaryExpr => 136,
            Kind::ObjCStringLiteral => 137,
            Kind::ObjCEncodeExpr => 138,
            Kind::ObjCSelectorExpr => 139,
            Kind::ObjCProtocolExpr => 140,
            Kind::ObjCBridgedCastExpr => 141,
            Kind::PackExpansionExpr => 142,
            Kind::SizeOfPackExpr => 143,
            Kind::LambdaExpr => 144,
            Kind::ObjCBoolLiteralExpr => 145,
            Kind::ObjCSelfExpr => 146,
            Kind::OMPArraySectionExpr => 147,
            Kind::ObjCAvailabilityCheckExpr => 148,
            Kind::UnexposedStmt => 200,
            Kind::LabelStmt => 201,
            Kind::CompoundStmt => 202,
            Kind::CaseStmt => 203,
            Kind::DefaultStmt => 204,
            Kind::IfStmt => 205,
            Kind::SwitchStmt => 206,
            Kind::WhileStmt => 207,
            Kind::DoStmt => 208,
            Kind::ForStmt => 209,
            Kind::GotoStmt => 210,
            Kind::IndirectGotoStmt => 211,
            Kind::ContinueStmt => 212,
            Kind::BreakStmt => 213,
            Kind::ReturnStmt => 214,
            Kind::GCCAsmStmt => 215,
            Kind::ObjCAtTryStmt => 216,
            Kind::ObjCAtCatchStmt => 217,
            Kind::ObjCAtFinallyStmt => 218,
            Kind::ObjCAtThrowStmt => 219,
            Kind::ObjCAtSynchronizedStmt => 220,
            Kind::ObjCAutoreleasePoolStmt => 221,
            Kind::ObjCForCollectionStmt => 222,
            Kind::CXXCatchStmt => 223,
            Kind::CXXTryStmt => 224,
            Kind::CXXForRangeStmt => 225,
            Kind::SEHTryStmt => 226,
            Kind::SEHExceptStmt => 227,
            Kind::SEHFinallyStmt => 228,
            Kind::MSAsmStmt => 229,
            Kind::NullStmt => 230,
            Kind::DeclStmt => 231,
            Kind::OMPParallelDirective => 232,
            Kind::OMPSimdDirective => 233,
            Kind::OMPForDirective => 234,
            Kind::OMPSectionsDirective => 235,
            Kind::OMPSectionDirective => 236,
            Kind::OMPSingleDirective => 237,
            Kind::OMPParallelForDirective => 238,
            Kind::OMPParallelSectionsDirective => 239,
            Kind::OMPTaskDirective => 240,
            Kind::OMPMasterDirective => 241,
            Kind::OMPCriticalDirective => 242,
            Kind::OMPTaskyieldDirective => 243,
            Kind::OMPBarrierDirective => 244,
            Kind::OMPTaskwaitDirective => 245,
            Kind::OMPFlushDirective => 246,
            Kind::SEHLeaveStmt => 247,
            Kind::OMPOrderedDirective => 248,
            Kind::OMPAtomicDirective => 249,
            Kind::OMPForSimdDirective => 250,
            Kind::OMPParallelForSimdDirective => 251,
            Kind::OMPTargetDirective => 252,
            Kind::OMPTeamsDirective => 253,
            Kind::OMPTaskgroupDirective => 254,
            Kind::OMPCancellationPointDirective => 255,
            Kind::OMPCancelDirective => 256,
            Kind::OMPTargetDataDirective => 257,
            Kind::OMPTaskLoopDirective => 258,
            Kind::OMPTaskLoopSimdDirective => 259,
            Kind::OMPDistributeDirective => 260,
            Kind::OMPTargetEnterDataDirective => 261,
            Kind::OMPTargetExitDataDirective => 262,
            Kind::OMPTargetParallelDirective => 263,
            Kind::OMPTargetParallelForDirective => 264,
            Kind::OMPTargetUpdateDirective => 265,
            Kind::OMPDistributeParallelForDirective => 266,
            Kind::OMPDistributeParallelForSimdDirective => 267,
            Kind::OMPDistributeSimdDirective => 268,
            Kind::OMPTargetParallelForSimdDirective => 269,
            Kind::OMPTargetSimdDirective => 270,
            Kind::OMPTeamsDistributeDirective => 271,
            Kind::OMPTeamsDistributeSimdDirective => 272,
            Kind::OMPTeamsDistributeParallelForSimdDirective => 273,
            Kind::OMPTeamsDistributeParallelForDirective => 274,
            Kind::OMPTargetTeamsDirective => 275,
            Kind::OMPTargetTeamsDistributeDirective => 276,
            Kind::OMPTargetTeamsDistributeParallelForDirective => 277,
            Kind::OMPTargetTeamsDistributeParallelForSimdDirective => 278,
            Kind::OMPTargetTeamsDistributeSimdDirective => 279,
            Kind::TranslationUnit => 300,
            Kind::UnexposedAttr => 400,
            Kind::IBActionAttr => 401,
            Kind::IBOutletAttr => 402,
            Kind::IBOutletCollectionAttr => 403,
            Kind::CXXFinalAttr => 404,
            Kind::CXXOverrideAttr => 405,
            Kind::AnnotateAttr => 406,
            Kind::AsmLabelAttr => 407,
            Kind::PackedAttr => 408,
            Kind::PureAttr => 409,
            Kind::ConstAttr => 410,
            Kind::NoDuplicateAttr => 411,
            Kind::CUDAConstantAttr => 412,
            Kind::CUDADeviceAttr => 413,
            Kind::CUDAGlobalAttr => 414,
            Kind::CUDAHostAttr => 415,
            Kind::CUDASharedAttr => 416,
            Kind::VisibilityAttr => 417,
            Kind::DLLExport => 418,
            Kind::DLLImport => 419,
            Kind::PreprocessingDirective => 500,
            Kind::MacroDefinition => 501,
            Kind::MacroExpansion => 502,
            Kind::InclusionDirective => 503,
            Kind::ModuleImportDecl => 600,
            Kind::TypeAliasTemplateDecl => 601,
            Kind::StaticAssert => 602,
            Kind::FriendDecl => 603,
            Kind::OverloadCandidate => 700,
        }
    }

    /// The native integer tag of this kind, as the native library writes it.
    pub fn native_code(self) -> (r: i32)
        ensures
            r as int == self.code(),
    {
        match self {
            Kind::UnexposedDecl => 1,
            Kind::StructDecl => 2,
            Kind::UnionDecl => 3,
            Kind::ClassDecl => 4,
            Kind::EnumDecl => 5,
            Kind::FieldDecl => 6,
            Kind::EnumConstantDecl => 7,
            Kind::FunctionDecl => 8,
            Kind::VarDecl => 9,
            Kind::ParmDecl => 10,
            Kind::ObjCInterfaceDecl => 11,
            Kind::ObjCCategoryDecl => 12,
            Kind::ObjCProtocolDecl => 13,
            Kind::ObjCPropertyDecl => 14,
            Kind::ObjCIvarDecl => 15,
            Kind::ObjCInstanceMethodDecl => 16,
            Kind::ObjCClassMethodDecl => 17,
            Kind::ObjCImplementationDecl => 18,
            Kind::ObjCCategoryImplDecl => 19,
            Kind::TypedefDecl => 20,
            Kind::CXXMethod => 21,
            Kind::Namespace => 22,
            Kind::LinkageSpec => 23,
            Kind::Constructor => 24,
            Kind::Destructor => 25,
            Kind::ConversionFunction => 26,
            Kind::TemplateTypeParameter => 27,
            Kind::NonTypeTemplateParameter => 28,
            Kind::TemplateTemplateParameter => 29,
            Kind::FunctionTemplate => 30,
            Kind::ClassTemplate => 31,
            Kind::ClassTemplatePartialSpecialization => 32,
            Kind::NamespaceAlias => 33,
            Kind::UsingDirective => 34,
            Kind::UsingDeclaration => 35,
            Kind::TypeAliasDecl => 36,
            Kind::ObjCSynthesizeDecl => 37,
            Kind::ObjCDynamicDecl => 38,
            Kind::CXXAccessSpecifier => 39,
            Kind::ObjCSuperClassRef => 40,
            Kind::ObjCProtocolRef => 41,
            Kind::ObjCClassRef => 42,
            Kind::TypeRef => 43,
            Kind::CXXBaseSpecifier => 44,
            Kind::TemplateRef => 45,
            Kind::NamespaceRef => 46,
            Kind::MemberRef => 47,
            Kind::LabelRef => 48,
            Kind::OverloadedDeclRef => 49,
            Kind::VariableRef => 50,
            Kind::InvalidFile => 70,
            Kind::NoDeclFound => 71,
            Kind::NotImplemented => 72,
            Kind::InvalidCode => 73,
            Kind::UnexposedExpr => 100,
            Kind::DeclRefExpr => 101,
            Kind::MemberRefExpr => 102,
            Kind::CallExpr => 103,
            Kind::ObjCMessageExpr => 104,
            Kind::BlockExpr => 105,
            Kind::IntegerLiteral => 106,
            Kind::FloatingLiteral => 107,
            Kind::ImaginaryLiteral => 108,
            Kind::StringLiteral => 109,
            Kind::CharacterLiteral => 110,
            Kind::ParenExpr => 111,
            Kind::UnaryOperator => 112,
            Kind::ArraySubscriptExpr => 113,
            Kind::BinaryOperator => 114,
            Kind::CompoundAssignOperator => 115,
            Kind::ConditionalOperator => 116,
            Kind::CStyleCastExpr => 117,
            Kind::CompoundLiteralExpr => 118,
            Kind::InitListExpr => 119,
            Kind::AddrLabelExpr => 120,
            Kind::StmtExpr => 121,
            Kind::GenericSelectionExpr => 122,
            Kind::GNUNullExpr => 123,
            Kind::CXXStaticCastExpr => 124,
            Kind::CXXDynamicCastExpr => 125,
            Kind::CXXReinterpretCastExpr => 126,
            Kind::CXXConstCastExpr => 127,
            Kind::CXXFunctionalCastExpr => 128,
            Kind::CXXTypeidExpr => 129,
            Kind::CXXBoolLiteralExpr => 130,
            Kind::CXXNullPtrLiteralExpr => 131,
            Kind::CXXThisExpr => 132,
            Kind::CXXThrowExpr => 133,
            Kind::CXXNewExpr => 134,
            Kind::CXXDeleteExpr => 135,
            Kind::UnaryExpr => 136,
            Kind::ObjCStringLiteral => 137,
            Kind::ObjCEncodeExpr => 138,
            Kind::ObjCSelectorExpr => 139,
            Kind::ObjCProtocolExpr => 140,
            Kind::ObjCBridgedCastExpr => 141,
            Kind::PackExpansionExpr => 142,
            Kind::SizeOfPackExpr => 143,
            Kind::LambdaExpr => 144,
            Kind::ObjCBoolLiteralExpr => 145,
            Kind::ObjCSelfExpr => 146,
            Kind::OMPArraySectionExpr => 147,
            Kind::ObjCAvailabilityCheckExpr => 148,
            Kind::UnexposedStmt => 200,
            Kind::LabelStmt => 201,
            Kind::CompoundStmt => 202,
            Kind::CaseStmt => 203,
            Kind::DefaultStmt => 204,
            Kind::IfStmt => 205,
            Kind::SwitchStmt => 206,
            Kind::WhileStmt => 207,
            Kind::DoStmt => 208,
            Kind::ForStmt => 209,
            Kind::GotoStmt => 210,
            Kind::IndirectGotoStmt => 211,
            Kind::ContinueStmt => 212,
            Kind::BreakStmt => 213,
            Kind::ReturnStmt => 214,
            Kind::GCCAsmStmt => 215,
            Kind::ObjCAtTryStmt => 216,
            Kind::ObjCAtCatchStmt => 217,
            Kind::ObjCAtFinallyStmt => 218,
            Kind::ObjCAtThrowStmt => 219,
            Kind::ObjCAtSynchronizedStmt => 220,
            Kind::ObjCAutoreleasePoolStmt => 221,
            Kind::ObjCForCollectionStmt => 222,
            Kind::CXXCatchStmt => 223,
            Kind::CXXTryStmt => 224,
            Kind::CXXForRangeStmt => 225,
            Kind::SEHTryStmt => 226,
            Kind::SEHExceptStmt => 227,
            Kind::SEHFinallyStmt => 228,
            Kind::MSAsmStmt => 229,
            Kind::NullStmt => 230,
            Kind::DeclStmt => 231,
            Kind::OMPParallelDirective => 232,
            Kind::OMPSimdDirective => 233,
            Kind::OMPForDirective => 234,
            Kind::OMPSectionsDirective => 235,
            Kind::OMPSectionDirective => 236,
            Kind::OMPSingleDirective => 237,
            Kind::OMPParallelForDirective => 238,
            Kind::OMPParallelSectionsDirective => 239,
            Kind::OMPTaskDirective => 240,
            Kind::OMPMasterDirective => 241,
            Kind::OMPCriticalDirective => 242,
            Kind::OMPTaskyieldDirective => 243,
            Kind::OMPBarrierDirective => 244,
            Kind::OMPTaskwaitDirective => 245,
            Kind::OMPFlushDirective => 246,
            Kind::SEHLeaveStmt => 247,
            Kind::OMPOrderedDirective => 248,
            Kind::OMPAtomicDirective => 249,
            Kind::OMPForSimdDirective => 250,
            Kind::OMPParallelForSimdDirective => 251,
            Kind::OMPTargetDirective => 252,
            Kind::OMPTeamsDirective => 253,
            Kind::OMPTaskgroupDirective => 254,
            Kind::OMPCancellationPointDirective => 255,
            Kind::OMPCancelDirective => 256,
            Kind::OMPTargetDataDirective => 257,
            Kind::OMPTaskLoopDirective => 258,
            Kind::OMPTaskLoopSimdDirective => 259,
            Kind::OMPDistributeDirective => 260,
            Kind::OMPTargetEnterDataDirective => 261,
            Kind::OMPTargetExitDataDirective => 262,
            Kind::OMPTargetParallelDirective => 263,
            Kind::OMPTargetParallelForDirective => 264,
            Kind::OMPTargetUpdateDirective => 265,
            Kind::OMPDistributeParallelForDirective => 266,
            Kind::OMPDistributeParallelForSimdDirective => 267,
            Kind::OMPDistributeSimdDirective => 268,
            Kind::OMPTargetParallelForSimdDirective => 269,
            Kind::OMPTargetSimdDirective => 270,
            Kind::OMPTeamsDistributeDirective => 271,
            Kind::OMPTeamsDistributeSimdDirective => 272,
            Kind::OMPTeamsDistributeParallelForSimdDirective => 273,
            Kind::OMPTeamsDistributeParallelForDirective => 274,
            Kind::OMPTargetTeamsDirective => 275,
            Kind::OMPTargetTeamsDistributeDirective => 276,
            Kind::OMPTargetTeamsDistributeParallelForDirective => 277,
            Kind::OMPTargetTeamsDistributeParallelForSimdDirective => 278,
            Kind::OMPTargetTeamsDistributeSimdDirective => 279,
            Kind::TranslationUnit => 300,
            Kind::UnexposedAttr => 400,
            Kind::IBActionAttr => 401,
            Kind::IBOutletAttr => 402,
            Kind::IBOutletCollectionAttr => 403,
            Kind::CXXFinalAttr => 404,
            Kind::CXXOverrideAttr => 405,
            Kind::AnnotateAttr => 406,
            Kind::AsmLabelAttr => 407,
            Kind::PackedAttr => 408,
            Kind::PureAttr => 409,
            Kind::ConstAttr => 410,
            Kind::NoDuplicateAttr => 411,
            Kind::CUDAConstantAttr => 412,
            Kind::CUDADeviceAttr => 413,
            Kind::CUDAGlobalAttr => 414,
            Kind::CUDAHostAttr => 415,
            Kind::CUDASharedAttr => 416,
            Kind::VisibilityAttr => 417,
            Kind::DLLExport => 418,
            Kind::DLLImport => 419,
            Kind::PreprocessingDirective => 500,
            Kind::MacroDefinition => 501,
            Kind::MacroExpansion => 502,
            Kind::InclusionDirective => 503,
            Kind::ModuleImportDecl => 600,
            Kind::TypeAliasTemplateDecl => 601,
            Kind::StaticAssert => 602,
            Kind::FriendDecl => 603,
            Kind::OverloadCandidate => 700,
        }
    }

    /// True when a native integer tag belongs to the closed kind space.
    pub open spec fn is_valid_code(code: int) -> bool {
        ||| FIRST_DECL <= code <= LAST_DECL
        ||| FIRST_REF <= code <= LAST_REF
        ||| FIRST_INVALID <= code <= LAST_INVALID
        ||| FIRST_EXPR <= code <= LAST_EXPR
        ||| FIRST_STMT <= code <= LAST_STMT
        ||| code == TRANSLATION_UNIT_CODE
        ||| FIRST_ATTR <= code <= LAST_ATTR
        ||| FIRST_PREPROCESSING <= code <= LAST_PREPROCESSING
        ||| FIRST_EXTRA_DECL <= code <= LAST_EXTRA_DECL
        ||| code == OVERLOAD_CANDIDATE_CODE
    }

    /// Explicit, total mapping from a native integer tag.
    ///
    /// Every tag inside the closed kind space yields its kind; every other
    /// integer yields `None`. This replaces any bit-for-bit reinterpretation
    /// of the native value with a verifiable mapping.
    pub fn from_code(code: i32) -> (r: Option<Kind>)
        ensures
            r is Some <==> Kind::is_valid_code(code as int),
            r matches Some(k) ==> k.code() == code as int,
    {
        match code {
            1 => Some(Kind::UnexposedDecl),
            2 => Some(Kind::StructDecl),
            3 => Some(Kind::UnionDecl),
            4 => Some(Kind::ClassDecl),
            5 => Some(Kind::EnumDecl),
            6 => Some(Kind::FieldDecl),
            7 => Some(Kind::EnumConstantDecl),
            8 => Some(Kind::FunctionDecl),
            9 => Some(Kind::VarDecl),
            10 => Some(Kind::ParmDecl),
            11 => Some(Kind::ObjCInterfaceDecl),
            12 => Some(Kind::ObjCCategoryDecl),
            13 => Some(Kind::ObjCProtocolDecl),
            14 => Some(Kind::ObjCPropertyDecl),
            15 => Some(Kind::ObjCIvarDecl),
            16 => Some(Kind::ObjCInstanceMethodDecl),
            17 => Some(Kind::ObjCClassMethodDecl),
            18 => Some(Kind::ObjCImplementationDecl),
            19 => Some(Kind::ObjCCategoryImplDecl),
            20 => Some(Kind::TypedefDecl),
            21 => Some(Kind::CXXMethod),
            22 => Some(Kind::Namespace),
            23 => Some(Kind::LinkageSpec),
            24 => Some(Kind::Constructor),
            25 => Some(Kind::Destructor),
            26 => Some(Kind::ConversionFunction),
            27 => Some(Kind::TemplateTypeParameter),
            28 => Some(Kind::NonTypeTemplateParameter),
            29 => Some(Kind::TemplateTemplateParameter),
            30 => Some(Kind::FunctionTemplate),
            31 => Some(Kind::ClassTemplate),
            32 => Some(Kind::ClassTemplatePartialSpecialization),
            33 => Some(Kind::NamespaceAlias),
            34 => Some(Kind::UsingDirective),
            35 => Some(Kind::UsingDeclaration),
            36 => Some(Kind::TypeAliasDecl),
            37 => Some(Kind::ObjCSynthesizeDecl),
            38 => Some(Kind::ObjCDynamicDecl),
            39 => Some(Kind::CXXAccessSpecifier),
            40 => Some(Kind::ObjCSuperClassRef),
            41 => Some(Kind::ObjCProtocolRef),
            42 => Some(Kind::ObjCClassRef),
            43 => Some(Kind::TypeRef),
            44 => Some(Kind::CXXBaseSpecifier),
            45 => Some(Kind::TemplateRef),
            46 => Some(Kind::NamespaceRef),
            47 => Some(Kind::MemberRef),
            48 => Some(Kind::LabelRef),
            49 => Some(Kind::OverloadedDeclRef),
            50 => Some(Kind::VariableRef),
            70 => Some(Kind::InvalidFile),
            71 => Some(Kind::NoDeclFound),
            72 => Some(Kind::NotImplemented),
            73 => Some(Kind::InvalidCode),
            100 => Some(Kind::UnexposedExpr),
            101 => Some(Kind::DeclRefExpr),
            102 => Some(Kind::MemberRefExpr),
            103 => Some(Kind::CallExpr),
            104 => Some(Kind::ObjCMessageExpr),
            105 => Some(Kind::BlockExpr),
            106 => Some(Kind::IntegerLiteral),
            107 => Some(Kind::FloatingLiteral),
            108 => Some(Kind::ImaginaryLiteral),
            109 => Some(Kind::StringLiteral),
            110 => Some(Kind::CharacterLiteral),
            111 => Some(Kind::ParenExpr),
            112 => Some(Kind::UnaryOperator),
            113 => Some(Kind::ArraySubscriptExpr),
            114 => Some(Kind::BinaryOperator),
            115 => Some(Kind::CompoundAssignOperator),
            116 => Some(Kind::ConditionalOperator),
            117 => Some(Kind::CStyleCastExpr),
            118 => Some(Kind::CompoundLiteralExpr),
            119 => Some(Kind::InitListExpr),
            120 => Some(Kind::AddrLabelExpr),
            121 => Some(Kind::StmtExpr),
            122 => Some(Kind::GenericSelectionExpr),
            123 => Some(Kind::GNUNullExpr),
            124 => Some(Kind::CXXStaticCastExpr),
            125 => Some(Kind::CXXDynamicCastExpr),
            126 => Some(Kind::CXXReinterpretCastExpr),
            127 => Some(Kind::CXXConstCastExpr),
            128 => Some(Kind::CXXFunctionalCastExpr),
            129 => Some(Kind::CXXTypeidExpr),
            130 => Some(Kind::CXXBoolLiteralExpr),
            131 => Some(Kind::CXXNullPtrLiteralExpr),
            132 => Some(Kind::CXXThisExpr),
            133 => Some(Kind::CXXThrowExpr),
            134 => Some(Kind::CXXNewExpr),
            135 => Some(Kind::CXXDeleteExpr),
            136 => Some(Kind::UnaryExpr),
            137 => Some(Kind::ObjCStringLiteral),
            138 => Some(Kind::ObjCEncodeExpr),
            139 => Some(Kind::ObjCSelectorExpr),
            140 => Some(Kind::ObjCProtocolExpr),
            141 => Some(Kind::ObjCBridgedCastExpr),
            142 => Some(Kind::PackExpansionExpr),
            143 => Some(Kind::SizeOfPackExpr),
            144 => Some(Kind::LambdaExpr),
            145 => Some(Kind::ObjCBoolLiteralExpr),
            146 => Some(Kind::ObjCSelfExpr),
            147 => Some(Kind::OMPArraySectionExpr),
            148 => Some(Kind::ObjCAvailabilityCheckExpr),
            200 => Some(Kind::UnexposedStmt),
            201 => Some(Kind::LabelStmt),
            202 => Some(Kind::CompoundStmt),
            203 => Some(Kind::CaseStmt),
            204 => Some(Kind::DefaultStmt),
            205 => Some(Kind::IfStmt),
            206 => Some(Kind::SwitchStmt),
            207 => Some(Kind::WhileStmt),
            208 => Some(Kind::DoStmt),
            209 => Some(Kind::ForStmt),
            210 => Some(Kind::GotoStmt),
            211 => Some(Kind::IndirectGotoStmt),
            212 => Some(Kind::ContinueStmt),
            213 => Some(Kind::BreakStmt),
            214 => Some(Kind::ReturnStmt),
            215 => Some(Kind::GCCAsmStmt),
            216 => Some(Kind::ObjCAtTryStmt),
            217 => Some(Kind::ObjCAtCatchStmt),
            218 => Some(Kind::ObjCAtFinallyStmt),
            219 => Some(Kind::ObjCAtThrowStmt),
            220 => Some(Kind::ObjCAtSynchronizedStmt),
            221 => Some(Kind::ObjCAutoreleasePoolStmt),
            222 => Some(Kind::ObjCForCollectionStmt),
            223 => Some(Kind::CXXCatchStmt),
            224 => Some(Kind::CXXTryStmt),
            225 => Some(Kind::CXXForRangeStmt),
            226 => Some(Kind::SEHTryStmt),
            227 => Some(Kind::SEHExceptStmt),
            228 => Some(Kind::SEHFinallyStmt),
            229 => Some(Kind::MSAsmStmt),
            230 => Some(Kind::NullStmt),
            231 => Some(Kind::DeclStmt),
            232 => Some(Kind::OMPParallelDirective),
            233 => Some(Kind::OMPSimdDirective),
            234 => Some(Kind::OMPForDirective),
            235 => Some(Kind::OMPSectionsDirective),
            236 => Some(Kind::OMPSectionDirective),
            237 => Some(Kind::OMPSingleDirective),
            238 => Some(Kind::OMPParallelForDirective),
            239 => Some(Kind::OMPParallelSectionsDirective),
            240 => Some(Kind::OMPTaskDirective),
            241 => Some(Kind::OMPMasterDirective),
            242 => Some(Kind::OMPCriticalDirective),
            243 => Some(Kind::OMPTaskyieldDirective),
            244 => Some(Kind::OMPBarrierDirective),
            245 => Some(Kind::OMPTaskwaitDirective),
            246 => Some(Kind::OMPFlushDirective),
            247 => Some(Kind::SEHLeaveStmt),
            248 => Some(Kind::OMPOrderedDirective),
            249 => Some(Kind::OMPAtomicDirective),
            250 => Some(Kind::OMPForSimdDirective),
            251 => Some(Kind::OMPParallelForSimdDirective),
            252 => Some(Kind::OMPTargetDirective),
            253 => Some(Kind::OMPTeamsDirective),
            254 => Some(Kind::OMPTaskgroupDirective),
            255 => Some(Kind::OMPCancellationPointDirective),
            256 => Some(Kind::OMPCancelDirective),
            257 => Some(Kind::OMPTargetDataDirective),
            258 => Some(Kind::OMPTaskLoopDirective),
            259 => Some(Kind::OMPTaskLoopSimdDirective),
            260 => Some(Kind::OMPDistributeDirective),
            261 => Some(Kind::OMPTargetEnterDataDirective),
            262 => Some(Kind::OMPTargetExitDataDirective),
            263 => Some(Kind::OMPTargetParallelDirective),
            264 => Some(Kind::OMPTargetParallelForDirective),
            265 => Some(Kind::OMPTargetUpdateDirective),
            266 => Some(Kind::OMPDistributeParallelForDirective),
            267 => Some(Kind::OMPDistributeParallelForSimdDirective),
            268 => Some(Kind::OMPDistributeSimdDirective),
            269 => Some(Kind::OMPTargetParallelForSimdDirective),
            270 => Some(Kind::OMPTargetSimdDirective),
            271 => Some(Kind::OMPTeamsDistributeDirective),
            272 => Some(Kind::OMPTeamsDistributeSimdDirective),
            273 => Some(Kind::OMPTeamsDistributeParallelForSimdDirective),
            274 => Some(Kind::OMPTeamsDistributeParallelForDirective),
            275 => Some(Kind::OMPTargetTeamsDirective),
            276 => Some(Kind::OMPTargetTeamsDistributeDirective),
            277 => Some(Kind::OMPTargetTeamsDistributeParallelForDirective),
            278 => Some(Kind::OMPTargetTeamsDistributeParallelForSimdDirective),
            279 => Some(Kind::OMPTargetTeamsDistributeSimdDirective),
            300 => Some(Kind::TranslationUnit),
            400 => Some(Kind::UnexposedAttr),
            401 => Some(Kind::IBActionAttr),
            402 => Some(Kind::IBOutletAttr),
            403 => Some(Kind::IBOutletCollectionAttr),
            404 => Some(Kind::CXXFinalAttr),
            405 => Some(Kind::CXXOverrideAttr),
            406 => Some(Kind::AnnotateAttr),
            407 => Some(Kind::AsmLabelAttr),
            408 => Some(Kind::PackedAttr),
            409 => Some(Kind::PureAttr),
            410 => Some(Kind::ConstAttr),
            411 => Some(Kind::NoDuplicateAttr),
            412 => Some(Kind::CUDAConstantAttr),
            413 => Some(Kind::CUDADeviceAttr),
            414 => Some(Kind::CUDAGlobalAttr),
            415 => Some(Kind::CUDAHostAttr),
            416 => Some(Kind::CUDASharedAttr),
            417 => Some(Kind::VisibilityAttr),
            418 => Some(Kind::DLLExport),
            419 => Some(Kind::DLLImport),
            500 => Some(Kind::PreprocessingDirective),
            501 => Some(Kind::MacroDefinition),
            502 => Some(Kind::MacroExpansion),
            503 => Some(Kind::InclusionDirective),
            600 => Some(Kind::ModuleImportDecl),
            601 => Some(Kind::TypeAliasTemplateDecl),
            602 => Some(Kind::StaticAssert),
            603 => Some(Kind::FriendDecl),
            700 => Some(Kind::OverloadCandidate),
            _ => None,
        }
    }

    /// Membership of a native tag in the merged declaration ranges.
    pub open spec fn code_is_declaration(code: int) -> bool {
        (FIRST_DECL <= code <= LAST_DECL) || (FIRST_EXTRA_DECL <= code <= LAST_EXTRA_DECL)
    }

    /// Membership of a native tag in the reference range.
    pub open spec fn code_is_reference(code: int) -> bool {
        FIRST_REF <= code <= LAST_REF
    }

    /// Membership of a native tag in the invalid-marker range.
    pub open spec fn code_is_invalid(code: int) -> bool {
        FIRST_INVALID <= code <= LAST_INVALID
    }

    /// Membership of a native tag in the expression range.
    pub open spec fn code_is_expression(code: int) -> bool {
        FIRST_EXPR <= code <= LAST_EXPR
    }

    /// Membership of a native tag in the statement range.
    pub open spec fn code_is_statement(code: int) -> bool {
        FIRST_STMT <= code <= LAST_STMT
    }

    /// Whether a native tag is the translation-unit root tag.
    pub open spec fn code_is_translation_unit(code: int) -> bool {
        code == TRANSLATION_UNIT_CODE
    }

    /// Membership of a native tag in the attribute range.
    pub open spec fn code_is_attribute(code: int) -> bool {
        FIRST_ATTR <= code <= LAST_ATTR
    }

    /// Membership of a native tag in the preprocessing range.
    pub open spec fn code_is_preprocessing(code: int) -> bool {
        FIRST_PREPROCESSING <= code <= LAST_PREPROCESSING
    }

    /// True when this kind is a declaration, primary or extra.
    pub fn is_declaration(self) -> (r: bool)
        ensures
            r == Kind::code_is_declaration(self.code()),
    {
        let c = self.native_code();
        (FIRST_DECL <= c && c <= LAST_DECL) || (FIRST_EXTRA_DECL <= c && c <= LAST_EXTRA_DECL)
    }

    /// True when this kind is a reference to another entity.
    pub fn is_reference(self) -> (r: bool)
        ensures
            r == Kind::code_is_reference(self.code()),
    {
        let c = self.native_code();
        FIRST_REF <= c && c <= LAST_REF
    }

    /// True when this kind marks an invalid cursor.
    pub fn is_invalid(self) -> (r: bool)
        ensures
            r == Kind::code_is_invalid(self.code()),
    {
        let c = self.native_code();
        FIRST_INVALID <= c && c <= LAST_INVALID
    }

    /// True when this kind is an expression.
    pub fn is_expression(self) -> (r: bool)
        ensures
            r == Kind::code_is_expression(self.code()),
    {
        let c = self.native_code();
        FIRST_EXPR <= c && c <= LAST_EXPR
    }

    /// True when this kind is a statement.
    pub fn is_statement(self) -> (r: bool)
        ensures
            r == Kind::code_is_statement(self.code()),
    {
        let c = self.native_code();
        FIRST_STMT <= c && c <= LAST_STMT
    }

    /// True when this kind is the cursor that represents the translation unit
    /// itself.
    pub fn is_translation_unit(self) -> (r: bool)
        ensures
            r == Kind::code_is_translation_unit(self.code()),
    {
        let c = self.native_code();
        c == TRANSLATION_UNIT_CODE
    }

    /// True when this kind is an attribute.
    pub fn is_attribute(self) -> (r: bool)
        ensures
            r == Kind::code_is_attribute(self.code()),
    {
        let c = self.native_code();
        FIRST_ATTR <= c && c <= LAST_ATTR
    }

    /// True when this kind is a preprocessing directive.
    pub fn is_preprocessing(self) -> (r: bool)
        ensures
            r == Kind::code_is_preprocessing(self.code()),
    {
        let c = self.native_code();
        FIRST_PREPROCESSING <= c && c <= LAST_PREPROCESSING
    }

    /// The four catch-all kinds, one per category, whose specific kind the
    /// native interface does not expose.
    pub open spec fn spec_is_unexposed(self) -> bool {
        self is UnexposedDecl || self is UnexposedExpr || self is UnexposedStmt
            || self is UnexposedAttr
    }

    /// True exactly for the four designated catch-all kinds, by exact
    /// equality rather than by range.
    pub fn is_unexposed(self) -> (r: bool)
        ensures
            r == self.spec_is_unexposed(),
    {
        match self {
            Kind::UnexposedDecl => true,
            Kind::UnexposedExpr => true,
            Kind::UnexposedStmt => true,
            Kind::UnexposedAttr => true,
            _ => false,
        }
    }

    /// How many of the eight category ranges contain a native tag.
    pub open spec fn category_count(code: int) -> int {
        (if Kind::code_is_declaration(code) { 1int } else { 0int })
            + (if Kind::code_is_reference(code) { 1int } else { 0int })
            + (if Kind::code_is_invalid(code) { 1int } else { 0int })
            + (if Kind::code_is_expression(code) { 1int } else { 0int })
            + (if Kind::code_is_statement(code) { 1int } else { 0int })
            + (if Kind::code_is_translation_unit(code) { 1int } else { 0int })
            + (if Kind::code_is_attribute(code) { 1int } else { 0int })
            + (if Kind::code_is_preprocessing(code) { 1int } else { 0int })
    }

    /// Every kind's native tag lies inside the closed kind space.
    pub proof fn lemma_code_valid(k: Kind)
        ensures
            Kind::is_valid_code(k.code()),
    {
    }

    /// The eight classification predicates partition the kinds: every kind
    /// satisfies exactly one of them, except the code-completion overload
    /// candidate, which lies outside all eight category ranges and satisfies
    /// none.
    pub proof fn lemma_classification_partition(k: Kind)
        ensures
            Kind::category_count(k.code()) == if k is OverloadCandidate {
                0int
            } else {
                1int
            },
    {
        Kind::lemma_code_valid(k);
    }
}

} // verus!
