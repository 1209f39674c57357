use nimbus_auth::headers::{
    bytes_equal, contains_subslice, header_value_to_str, is_visible_ascii_text, lowercase_ascii,
};

#[test]
fn visible_ascii_header_is_text() {
    assert_eq!(header_value_to_str(b"abc def"), Some("abc def"));
    assert_eq!(header_value_to_str(b"tab\there"), Some("tab\there"));
    assert_eq!(header_value_to_str(b""), Some(""));
}

#[test]
fn control_and_non_ascii_bytes_are_not_text() {
    assert_eq!(header_value_to_str(b"a\x01b"), None);
    assert_eq!(header_value_to_str(b"a\x7fb"), None);
    assert_eq!(header_value_to_str("caf\u{e9}".as_bytes()), None);
    assert!(!is_visible_ascii_text(b"\n"));
    assert!(is_visible_ascii_text(b"~ !"));
}

#[test]
fn lowercase_changes_ascii_letters_only() {
    assert_eq!(lowercase_ascii(b"MoZiLLa/5.0 [X]"), b"mozilla/5.0 [x]".to_vec());
    assert_eq!(lowercase_ascii(&[0xC3, 0x89]), vec![0xC3, 0x89]);
}

#[test]
fn subslice_search() {
    assert!(contains_subslice(b"hello world", b"o w"));
    assert!(contains_subslice(b"abc", b""));
    assert!(!contains_subslice(b"ab", b"abc"));
    assert!(!contains_subslice(b"aab", b"abb"));
    assert!(bytes_equal(b"pc", b"pc"));
    assert!(!bytes_equal(b"pc", b"pcs"));
}
