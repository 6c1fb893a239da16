use juice::error::ErrorCode;

#[test]
fn known_codes_map_to_their_members() {
    assert!(matches!(ErrorCode::from_native(0), ErrorCode::Success));
    assert!(matches!(ErrorCode::from_native(1), ErrorCode::Failure));
    assert!(matches!(ErrorCode::from_native(2), ErrorCode::Crashed));
    assert!(matches!(ErrorCode::from_native(3), ErrorCode::InvalidArguments));
    assert!(matches!(ErrorCode::from_native(4), ErrorCode::ASTReadError));
}

#[test]
fn every_other_code_degrades_to_unknown() {
    let samples: Vec<i32> = vec![5, 6, 100, -1, -1000, i32::MAX, i32::MIN];
    for code in samples {
        assert!(matches!(ErrorCode::from_native(code), ErrorCode::UnknownError));
    }
    for code in 5..2000 {
        assert!(matches!(ErrorCode::from_native(code), ErrorCode::UnknownError));
    }
    for code in -2000..0 {
        assert!(matches!(ErrorCode::from_native(code), ErrorCode::UnknownError));
    }
}

#[test]
fn descriptions_are_fixed() {
    assert_eq!(ErrorCode::Success.description(), "Success.");
    assert_eq!(ErrorCode::Failure.description(), "Generic error code.");
    assert_eq!(ErrorCode::Crashed.description(), "libclang crashed.");
    assert_eq!(ErrorCode::InvalidArguments.description(), "Invalid arguments.");
    assert_eq!(ErrorCode::ASTReadError.description(), "AST deserialization error.");
    assert_eq!(ErrorCode::UnknownError.description(), "Unknown error.");
}

#[test]
fn only_success_is_success() {
    assert!(ErrorCode::Success.is_success());
    assert!(!ErrorCode::Failure.is_success());
    assert!(!ErrorCode::Crashed.is_success());
    assert!(!ErrorCode::InvalidArguments.is_success());
    assert!(!ErrorCode::ASTReadError.is_success());
    assert!(!ErrorCode::UnknownError.is_success());
}
