use juice::error::ErrorCode;
use juice::index::{Index, IndexOptions, INDEX_DISPLAY_DIAGNOSTICS, INDEX_EXCLUDE_DECLARATIONS_FROM_PCH};
use juice::text::OwnedString;
use juice::tu::{ParseFlags, TranslationUnit, PARSE_SKIP_FUNCTION_BODIES};

fn pass_through(s: OwnedString) -> OwnedString {
    s
}

#[test]
fn owned_string_is_disposed_exactly_once_across_moves() {
    let s = OwnedString::from_native(7, b"hello".to_vec());
    let s = pass_through(s);
    let mut s = pass_through(s);
    let mut dispose_count = 0;
    if s.dispose().is_some() {
        dispose_count += 1;
    }
    if s.dispose().is_some() {
        dispose_count += 1;
    }
    if s.dispose().is_some() {
        dispose_count += 1;
    }
    assert_eq!(dispose_count, 1);
    assert!(s.is_disposed());
}

#[test]
fn owned_string_dispose_yields_the_wrapped_handle() {
    let mut s = OwnedString::from_native(42, Vec::new());
    assert!(!s.is_disposed());
    assert_eq!(s.dispose(), Some(42));
    assert_eq!(s.dispose(), None);
}

#[test]
fn owned_string_decodes_valid_utf8() {
    let s = OwnedString::from_native(1, "héllo".as_bytes().to_vec());
    assert_eq!(s.to_str(), "héllo");
}

#[test]
fn owned_string_degrades_invalid_utf8_to_the_sentinel() {
    let s = OwnedString::from_native(2, vec![0xff, 0xfe, 0x00]);
    assert_eq!(s.to_str(), "<invalid-text>");
}

#[test]
fn index_options_translate_to_native_arguments() {
    assert_eq!(IndexOptions::empty().native_args(), (0, 0));
    let both = IndexOptions::from_bits_truncate(
        INDEX_EXCLUDE_DECLARATIONS_FROM_PCH | INDEX_DISPLAY_DIAGNOSTICS,
    );
    assert_eq!(both.native_args(), (1, 1));
    let exclude = IndexOptions::from_bits_truncate(INDEX_EXCLUDE_DECLARATIONS_FROM_PCH);
    assert_eq!(exclude.native_args(), (1, 0));
    let display = IndexOptions::from_bits_truncate(INDEX_DISPLAY_DIAGNOSTICS);
    assert_eq!(display.native_args(), (0, 1));
}

#[test]
fn index_options_keep_only_known_bits() {
    let o = IndexOptions::from_bits_truncate(0xFFFF_FFFF);
    assert_eq!(o.bits(), INDEX_EXCLUDE_DECLARATIONS_FROM_PCH | INDEX_DISPLAY_DIAGNOSTICS);
    assert!(o.contains(INDEX_EXCLUDE_DECLARATIONS_FROM_PCH));
    assert!(o.contains(INDEX_DISPLAY_DIAGNOSTICS));
    assert!(IndexOptions::empty().contains(0));
    assert!(!IndexOptions::empty().contains(INDEX_DISPLAY_DIAGNOSTICS));
}

#[test]
fn parse_flags_keep_only_known_bits() {
    let f = ParseFlags::from_bits_truncate(0xFFFF_FF40);
    assert_eq!(f.bits(), PARSE_SKIP_FUNCTION_BODIES);
    assert!(f.contains(PARSE_SKIP_FUNCTION_BODIES));
    assert_eq!(ParseFlags::empty().bits(), 0);
}

#[test]
fn index_is_disposed_exactly_once() {
    let mut idx = Index::from_native(9, IndexOptions::empty());
    assert!(!idx.is_disposed());
    assert_eq!(idx.handle(), 9);
    assert_eq!(idx.dispose(), Some(9));
    assert_eq!(idx.dispose(), None);
    assert!(idx.is_disposed());
}

#[test]
fn failed_parse_yields_the_classified_error_and_no_unit() {
    let idx = Index::from_native(1, IndexOptions::empty());
    let mut unit_count = 0;
    let mut dispose_count = 0;
    // The native parser reports an error for a file that does not exist; no
    // translation unit may come back, so there is nothing to dispose.
    for code in [1, 2, 3, 4, 99] {
        let r = TranslationUnit::from_parse_result(
            &idx,
            code,
            0,
            String::from("missing.c"),
            ParseFlags::empty(),
        );
        match r {
            Ok(mut tu) => {
                unit_count += 1;
                if tu.dispose().is_some() {
                    dispose_count += 1;
                }
            }
            Err(e) => assert!(!e.is_success()),
        }
    }
    assert_eq!(unit_count, 0);
    assert_eq!(dispose_count, unit_count);
}

#[test]
fn parse_errors_classify_by_code() {
    let idx = Index::from_native(1, IndexOptions::empty());
    let f = ParseFlags::empty();
    let err = |code: i32| {
        TranslationUnit::from_parse_result(&idx, code, 0, String::from("x.c"), f).unwrap_err()
    };
    assert!(matches!(err(1), ErrorCode::Failure));
    assert!(matches!(err(2), ErrorCode::Crashed));
    assert!(matches!(err(3), ErrorCode::InvalidArguments));
    assert!(matches!(err(4), ErrorCode::ASTReadError));
    assert!(matches!(err(-7), ErrorCode::UnknownError));
}

#[test]
fn successful_parse_carries_filename_and_flags() {
    let idx = Index::from_native(1, IndexOptions::empty());
    let flags = ParseFlags::from_bits_truncate(PARSE_SKIP_FUNCTION_BODIES);
    let tu = TranslationUnit::from_parse_result(&idx, 0, 55, String::from("a.c"), flags)
        .unwrap();
    assert_eq!(tu.handle(), 55);
    assert_eq!(tu.filename(), "a.c");
    assert_eq!(tu.flags().bits(), PARSE_SKIP_FUNCTION_BODIES);
    assert!(!tu.is_disposed());
}

#[test]
fn two_parses_produce_independently_disposable_units() {
    let idx1 = Index::from_native(1, IndexOptions::empty());
    let idx2 = Index::from_native(2, IndexOptions::empty());
    let f = ParseFlags::empty();
    let mut tu1 = TranslationUnit::from_parse_result(&idx1, 0, 11, String::from("same.c"), f)
        .unwrap();
    let mut tu2 = TranslationUnit::from_parse_result(&idx2, 0, 12, String::from("same.c"), f)
        .unwrap();
    assert_eq!(tu1.dispose(), Some(11));
    // Disposing one unit leaves the other fully usable.
    assert!(!tu2.is_disposed());
    assert_eq!(tu2.handle(), 12);
    assert_eq!(tu2.filename(), "same.c");
    assert_eq!(tu2.dispose(), Some(12));
    assert_eq!(tu1.dispose(), None);
    assert_eq!(tu2.dispose(), None);
}
