//! Closed classification of the native library's integer result codes.

use vstd::prelude::*;

verus! {

/// The native library's result code for a successful operation.
pub const NATIVE_SUCCESS: i32 = 0;
/// The native library's result code for a generic failure.
pub const NATIVE_FAILURE: i32 = 1;
/// The native library's result code for a crash during the operation.
pub const NATIVE_CRASHED: i32 = 2;
/// The native library's result code for invalid arguments.
pub const NATIVE_INVALID_ARGUMENTS: i32 = 3;
/// The native library's result code for an AST deserialization error.
pub const NATIVE_AST_READ_ERROR: i32 = 4;

/// A stable taxonomy for the native library's integer result codes.
///
/// Every native integer maps to exactly one member; integers outside the five
/// named codes degrade to `UnknownError` rather than failing.
#[derive(Debug, Clone, Copy, PartialEq, Eq, Structural)]
pub enum ErrorCode {
    Success,
    Failure,
    Crashed,
    InvalidArguments,
    ASTReadError,
    UnknownError,
}

impl ErrorCode {
    /// The taxonomy member that a native result code translates to.
    pub open spec fn spec_from_native(code: int) -> ErrorCode {
        if code == NATIVE_SUCCESS {
            ErrorCode::Success
        } else if code == NATIVE_FAILURE {
            ErrorCode::Failure
        } else if code == NATIVE_CRASHED {
            ErrorCode::Crashed
        } else if code == NATIVE_INVALID_ARGUMENTS {
            ErrorCode::InvalidArguments
        } else if code == NATIVE_AST_READ_ERROR {
            ErrorCode::ASTReadError
        } else {
            ErrorCode::UnknownError
        }
    }

    /// Translates a native result code into the taxonomy.
    ///
    /// Total over every `i32`: the five named codes map to their members and
    /// every other integer maps to `UnknownError`.
    pub fn from_native(code: i32) -> (r: ErrorCode)
        ensures
            r == ErrorCode::spec_from_native(code as int),
    {
        if code == NATIVE_SUCCESS {
            ErrorCode::Success
        } else if code == NATIVE_FAILURE {
            ErrorCode::Failure
        } else if code == NATIVE_CRASHED {
            ErrorCode::Crashed
        } else if code == NATIVE_INVALID_ARGUMENTS {
            ErrorCode::InvalidArguments
        } else if code == NATIVE_AST_READ_ERROR {
            ErrorCode::ASTReadError
        } else {
            ErrorCode::UnknownError
        }
    }

    /// The fixed description text for each taxonomy member.
    pub open spec fn spec_description(self) -> Seq<char> {
        match self {
            ErrorCode::Success => "Success."@,
            ErrorCode::Failure => "Generic error code."@,
            ErrorCode::Crashed => "libclang crashed."@,
            ErrorCode::InvalidArguments => "Invalid arguments."@,
            ErrorCode::ASTReadError => "AST deserialization error."@,
            ErrorCode::UnknownError => "Unknown error."@,
        }
    }

    /// A fixed, stable human-readable description of the result.
    pub fn description(&self) -> (r: &'static str)
        ensures
            r@ == self.spec_description(),
    {
        match *self {
            ErrorCode::Success => "Success.",
            ErrorCode::Failure => "Generic error code.",
            ErrorCode::Crashed => "libclang crashed.",
            ErrorCode::InvalidArguments => "Invalid arguments.",
            ErrorCode::ASTReadError => "AST deserialization error.",
            ErrorCode::UnknownError => "Unknown error.",
        }
    }

    /// True exactly for the `Success` member.
    pub fn is_success(&self) -> (r: bool)
        ensures
            r == (*self is Success),
    {
        match *self {
            ErrorCode::Success => true,
            _ => false,
        }
    }
}

} // verus!
