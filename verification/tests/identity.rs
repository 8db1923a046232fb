use bastion::context::BastionId;

#[test]
fn fresh_ids_are_never_nil() {
    let id = BastionId::new();
    assert!(!id.is_nil());
}

#[test]
fn fresh_ids_are_distinct() {
    let first = BastionId::new();
    let second = BastionId::new();
    assert_ne!(first, second);
}

#[test]
fn nil_id_is_nil() {
    assert!(BastionId::nil().is_nil());
}

#[test]
fn nil_id_displays_as_all_zero_uuid() {
    let text = BastionId::nil().display_string();
    assert_eq!(text, "00000000-0000-0000-0000-000000000000");
}

#[test]
fn display_string_is_a_valid_uuid() {
    let id = BastionId::new();
    let text = id.display_string();
    assert_eq!(text.len(), 36);
    let parsed = uuid::Uuid::parse_str(&text).expect("the text form parses back");
    assert_eq!(parsed.get_version_num(), 4);
}

#[test]
fn display_string_is_a_function_of_the_id() {
    let id = BastionId::new();
    assert_eq!(id.display_string(), id.display_string());
}
