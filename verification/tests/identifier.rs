use en16931::identifier::{DocumentReference, Identifier};

#[test]
fn identifier_carries_all_three_components() {
    let id = Identifier::schemed("123456789", "0088").with_scheme_version("1.0");
    assert_eq!(id.content(), "123456789");
    assert_eq!(id.scheme(), Some("0088"));
    assert_eq!(id.scheme_version(), Some("1.0"), "the forgotten component");
}

#[test]
fn a_missing_scheme_is_representable_so_it_can_be_reported() {
    let bare = Identifier::new("DE123456789");
    assert_eq!(bare.scheme(), None);
    assert_eq!(bare.to_string(), "DE123456789");
}

#[test]
fn blank_content_is_detectable() {
    assert!(Identifier::new("   ").is_blank());
    assert!(!Identifier::new("x").is_blank());
    assert!(DocumentReference::new("").is_blank());
}

#[test]
fn document_reference_has_no_scheme_by_construction() {
    let r = DocumentReference::new("PO-4711");
    assert_eq!(r.as_str(), "PO-4711");
    assert_eq!(r.to_string(), "PO-4711");
}
