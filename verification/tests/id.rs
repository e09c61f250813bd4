use std::collections::HashSet;
use std::hash::{Hash, Hasher};
use std::str::FromStr;
use umbrello::id::{InvalidIdText, UmlId};

#[test]
fn new_produces_unique_ids() {
    let count = 10_000;
    let ids: HashSet<_> = (0..count).map(|_| UmlId::new()).collect();
    assert_eq!(ids.len(), count, "UmlId::new() produced duplicates");
}

#[test]
fn default_is_valid() {
    let id = UmlId::default();
    let s = id.to_text();
    assert!(!s.is_empty(), "default UmlId should produce non-empty text");
}

#[test]
fn text_is_hyphenated_lowercase_hex() {
    let id = UmlId::from_u128(0x0123_4567_89ab_cdef_fedc_ba98_7654_3210);
    assert_eq!(id.to_text(), "01234567-89ab-cdef-fedc-ba9876543210");
    assert_eq!(id.as_u128(), 0x0123_4567_89ab_cdef_fedc_ba98_7654_3210);
}

#[test]
fn clone_equality() {
    let id = UmlId::new();
    #[allow(clippy::clone_on_copy)]
    let copy = id.clone();
    assert_eq!(id, copy);
}

#[test]
fn hash_consistency() {
    let id = UmlId::new();
    let mut h1 = std::collections::hash_map::DefaultHasher::new();
    let mut h2 = std::collections::hash_map::DefaultHasher::new();
    id.hash(&mut h1);
    #[allow(clippy::clone_on_copy)]
    id.clone().hash(&mut h2);
    assert_eq!(h1.finish(), h2.finish());
}

#[test]
fn order_consistent_with_eq() {
    let a = UmlId::new();
    let b = UmlId::new();
    if a == b {
        assert_eq!(a.cmp(&b), std::cmp::Ordering::Equal);
    }
}

#[test]
fn display_roundtrip() {
    let id = UmlId::new();
    let s = id.to_text();
    let parsed: UmlId = s.parse().expect("parsing Display output");
    assert_eq!(id, parsed);
}

#[test]
fn parse_invalid_rejected() {
    assert!(UmlId::from_str("not-a-uuid").is_err());
}

#[test]
fn parse_reads_every_form_of_the_same_value() {
    let id = UmlId::from_u128(0x936da01f_9abd_4d9d_80c7_02af85c822a8);
    for text in [
        "936da01f-9abd-4d9d-80c7-02af85c822a8",
        "936DA01F9ABD4D9D80C702AF85C822A8",
        "{936da01f-9abd-4d9d-80c7-02af85c822a8}",
        "urn:uuid:936da01f-9abd-4d9d-80c7-02af85c822a8",
    ] {
        assert_eq!(UmlId::parse(text), Ok(id));
    }
    assert_eq!(
        UmlId::parse("936da01f-9abd-4d9d-80c7-02af85c822a"),
        Err(InvalidIdText { text: "936da01f-9abd-4d9d-80c7-02af85c822a".to_string() })
    );
}
