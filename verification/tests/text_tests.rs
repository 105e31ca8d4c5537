use beacon_node::text::copy_optional;
use beacon_node::text::same_text;

#[test]
fn same_text_compares_every_character() {
    assert!(same_text("", ""));
    assert!(same_text("minimal", "minimal"));
    assert!(same_text("größe", "größe"));
    assert!(!same_text("minimal", "mainnet"));
    assert!(!same_text("minimal", "minima"));
    assert!(!same_text("minima", "minimal"));
    assert!(!same_text("", "x"));
    assert!(!same_text("a", "b"));
    assert!(!same_text("é", "e"));
}

#[test]
fn copy_optional_copies_what_is_there() {
    assert_eq!(copy_optional(&None), None);
    assert_eq!(copy_optional(&Some("/data".to_string())), Some("/data".to_string()));
    assert_eq!(copy_optional(&Some(String::new())), Some(String::new()));
}
