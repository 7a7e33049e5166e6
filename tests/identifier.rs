use polybar_title_module::identifier::{IdentifierError, WindowIdentifier, WindowIdentifierKind};

#[test]
fn class_identifier_displays_canonically() {
    let id = WindowIdentifier { kind: WindowIdentifierKind::Class, value: "x".to_string() };
    assert_eq!(id.to_string(), "wm_class=x");
}

#[test]
fn name_identifier_displays_canonically() {
    let id = WindowIdentifier { kind: WindowIdentifierKind::Name, value: "Mozilla Firefox".to_string() };
    assert_eq!(id.to_string(), "wm_name=Mozilla Firefox");
}

#[test]
fn parse_canonical_class() {
    let id = WindowIdentifier::parse("wm_class=x").unwrap();
    assert_eq!(id.kind, WindowIdentifierKind::Class);
    assert_eq!(id.value, "x");
}

#[test]
fn display_then_parse_round_trip() {
    let id = WindowIdentifier { kind: WindowIdentifierKind::Name, value: "a=b".to_string() };
    let back = WindowIdentifier::parse(&id.to_string()).unwrap();
    assert_eq!(back.kind, WindowIdentifierKind::Name);
    assert_eq!(back.value, "a=b");
}

#[test]
fn parse_without_separator_fails() {
    assert_eq!(WindowIdentifier::parse("wm_class").unwrap_err(), IdentifierError::MissingSeparator);
    assert_eq!(WindowIdentifier::parse("").unwrap_err(), IdentifierError::MissingSeparator);
}

#[test]
fn parse_unknown_kind_fails() {
    assert_eq!(WindowIdentifier::parse("title=x").unwrap_err(), IdentifierError::UnknownKind);
}

#[test]
fn parse_splits_at_first_separator() {
    let id = WindowIdentifier::parse("n=a=b").unwrap();
    assert_eq!(id.kind, WindowIdentifierKind::Name);
    assert_eq!(id.value, "a=b");
}

#[test]
fn parse_empty_value() {
    let id = WindowIdentifier::parse("c=").unwrap();
    assert_eq!(id.kind, WindowIdentifierKind::Class);
    assert_eq!(id.value, "");
}

#[test]
fn kind_aliases_ignore_case() {
    for s in ["wm_class", "WMC", "wc", "C", "cls", "WCls", "Class"] {
        assert_eq!(WindowIdentifierKind::parse(s), Ok(WindowIdentifierKind::Class));
    }
    for s in ["WM_NAME", "wmn", "Wn", "n", "NAME"] {
        assert_eq!(WindowIdentifierKind::parse(s), Ok(WindowIdentifierKind::Name));
    }
    assert_eq!(WindowIdentifierKind::parse("wm_title"), Err(IdentifierError::UnknownKind));
    assert_eq!(WindowIdentifierKind::parse(""), Err(IdentifierError::UnknownKind));
}

#[test]
fn from_str_matches_parse() {
    let id: WindowIdentifier = "WM_CLASS=Code".parse().unwrap();
    assert_eq!(id.kind, WindowIdentifierKind::Class);
    assert_eq!(id.value, "Code");
}
