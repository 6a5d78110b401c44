use content_registry::identifier::Identifier;
use content_registry::json::text_eq;

#[test]
fn identifier_keeps_its_text() {
    let id = Identifier::new("sword");
    assert_eq!(id.as_str(), "sword");
    assert_eq!(id.len(), 5);
}

#[test]
fn identifiers_are_equal_by_text() {
    let id = Identifier::new("sword");
    assert_eq!(id, Identifier::new("sword"));
    assert_eq!(id, id.clone());
    assert_ne!(id, Identifier::new("swords"));
    assert_ne!(id, Identifier::new("Sword"));
}

#[test]
fn texts_are_compared_character_by_character() {
    assert!(text_eq("", ""));
    assert!(text_eq("größe", "größe"));
    assert!(!text_eq("abc", "abd"));
    assert!(!text_eq("abc", "ab"));
}
