use juice::kind::Kind;

/// The closed integer kind space, as the classification ranges describe it.
fn in_some_range(code: i32) -> bool {
    (1..=39).contains(&code)
        || (40..=50).contains(&code)
        || (70..=73).contains(&code)
        || (100..=148).contains(&code)
        || (200..=279).contains(&code)
        || code == 300
        || (400..=419).contains(&code)
        || (500..=503).contains(&code)
        || (600..=603).contains(&code)
        || code == 700
}

fn category_count(k: Kind) -> u32 {
    let mut count = 0;
    if k.is_declaration() {
        count += 1;
    }
    if k.is_reference() {
        count += 1;
    }
    if k.is_invalid() {
        count += 1;
    }
    if k.is_expression() {
        count += 1;
    }
    if k.is_statement() {
        count += 1;
    }
    if k.is_translation_unit() {
        count += 1;
    }
    if k.is_attribute() {
        count += 1;
    }
    if k.is_preprocessing() {
        count += 1;
    }
    count
}

#[test]
fn from_code_covers_exactly_the_kind_space() {
    let mut valid = 0;
    for code in -100..1000 {
        match Kind::from_code(code) {
            Some(k) => {
                assert!(in_some_range(code), "code {} should be invalid", code);
                assert_eq!(k.native_code(), code);
                valid += 1;
            }
            None => assert!(!in_some_range(code), "code {} should be valid", code),
        }
    }
    assert_eq!(valid, 213);
}

#[test]
fn classification_is_a_partition() {
    for code in -100..1000 {
        if let Some(k) = Kind::from_code(code) {
            let expected = if code == 700 { 0 } else { 1 };
            assert_eq!(category_count(k), expected, "code {}", code);
        }
    }
}

#[test]
fn category_boundaries_hold() {
    assert!(Kind::from_code(39).unwrap().is_declaration());
    assert!(Kind::from_code(40).unwrap().is_reference());
    assert!(Kind::from_code(50).unwrap().is_reference());
    assert!(Kind::from_code(70).unwrap().is_invalid());
    assert!(Kind::from_code(73).unwrap().is_invalid());
    assert!(Kind::from_code(100).unwrap().is_expression());
    assert!(Kind::from_code(148).unwrap().is_expression());
    assert!(Kind::from_code(200).unwrap().is_statement());
    assert!(Kind::from_code(279).unwrap().is_statement());
    assert!(Kind::from_code(300).unwrap().is_translation_unit());
    assert!(Kind::from_code(400).unwrap().is_attribute());
    assert!(Kind::from_code(419).unwrap().is_attribute());
    assert!(Kind::from_code(500).unwrap().is_preprocessing());
    assert!(Kind::from_code(503).unwrap().is_preprocessing());
    assert!(Kind::from_code(600).unwrap().is_declaration());
    assert!(Kind::from_code(603).unwrap().is_declaration());
    assert!(Kind::from_code(51).is_none());
    assert!(Kind::from_code(69).is_none());
    assert!(Kind::from_code(74).is_none());
    assert!(Kind::from_code(149).is_none());
    assert!(Kind::from_code(199).is_none());
    assert!(Kind::from_code(280).is_none());
    assert!(Kind::from_code(299).is_none());
    assert!(Kind::from_code(301).is_none());
    assert!(Kind::from_code(399).is_none());
    assert!(Kind::from_code(420).is_none());
    assert!(Kind::from_code(504).is_none());
    assert!(Kind::from_code(599).is_none());
    assert!(Kind::from_code(604).is_none());
    assert!(Kind::from_code(699).is_none());
    assert!(Kind::from_code(701).is_none());
    assert!(Kind::from_code(0).is_none());
    assert!(Kind::from_code(-5).is_none());
}

#[test]
fn exactly_four_kinds_are_unexposed() {
    let mut unexposed = Vec::new();
    for code in -100..1000 {
        if let Some(k) = Kind::from_code(code) {
            if k.is_unexposed() {
                unexposed.push(code);
            }
        }
    }
    assert_eq!(unexposed, vec![1, 100, 200, 400]);
    assert!(matches!(Kind::from_code(1), Some(Kind::UnexposedDecl)));
    assert!(matches!(Kind::from_code(100), Some(Kind::UnexposedExpr)));
    assert!(matches!(Kind::from_code(200), Some(Kind::UnexposedStmt)));
    assert!(matches!(Kind::from_code(400), Some(Kind::UnexposedAttr)));
}

#[test]
fn specific_kinds_decode_as_named() {
    assert!(matches!(Kind::from_code(2), Some(Kind::StructDecl)));
    assert!(matches!(Kind::from_code(8), Some(Kind::FunctionDecl)));
    assert!(matches!(Kind::from_code(103), Some(Kind::CallExpr)));
    assert!(matches!(Kind::from_code(202), Some(Kind::CompoundStmt)));
    assert!(matches!(Kind::from_code(300), Some(Kind::TranslationUnit)));
    assert!(matches!(Kind::from_code(700), Some(Kind::OverloadCandidate)));
    assert_eq!(Kind::FunctionDecl.native_code(), 8);
    assert_eq!(Kind::OverloadCandidate.native_code(), 700);
}
