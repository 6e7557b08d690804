use form_backend::ident::is_valid_uuid;

#[test]
fn accepts_standard_identifier_text() {
    assert!(is_valid_uuid("550e8400-e29b-41d4-a716-446655440000"));
    assert!(is_valid_uuid("00000000-0000-0000-0000-000000000000"));
}

#[test]
fn rejects_wrong_length() {
    assert!(!is_valid_uuid(""));
    assert!(!is_valid_uuid("550e8400-e29b-41d4-a716-44665544000"));
    assert!(!is_valid_uuid("550e8400-e29b-41d4-a716-4466554400000"));
}

#[test]
fn rejects_misplaced_hyphens() {
    assert!(!is_valid_uuid("550e8400e-29b-41d4-a716-446655440000"));
    assert!(!is_valid_uuid("550e8400-e29b-41d4-a716-4466-5440000"));
}

#[test]
fn rejects_characters_outside_lowercase_hex() {
    assert!(!is_valid_uuid("550E8400-e29b-41d4-a716-446655440000"));
    assert!(!is_valid_uuid("550g8400-e29b-41d4-a716-446655440000"));
    assert!(!is_valid_uuid("550e8400-e29b-41d4-a716-44665544000 "));
}
