use degressly_core::text::{bytes_eq_ignore_ascii_case, header_value_text, header_value_text_or_empty, is_visible_ascii_text};

#[test]
fn header_value_text_rules() {
    assert_eq!(header_value_text(b"hello world"), Some("hello world".to_string()));
    assert_eq!(header_value_text(b"a\tb"), Some("a\tb".to_string()));
    assert_eq!(header_value_text(b""), Some(String::new()));
    assert_eq!(header_value_text(b"a\x7fb"), None);
    assert_eq!(header_value_text(b"caf\xc3\xa9"), None);
    assert_eq!(header_value_text_or_empty(b"x\ny"), "");
    assert!(is_visible_ascii_text(b"~ !"));
    assert!(!is_visible_ascii_text(b"\x1f"));
}

#[test]
fn ascii_case_comparison() {
    assert!(bytes_eq_ignore_ascii_case(b"X-Trace-ID", b"x-trace-id"));
    assert!(!bytes_eq_ignore_ascii_case(b"x-trace-i", b"x-trace-id"));
    assert!(!bytes_eq_ignore_ascii_case(b"[", b"{"));
    assert!(bytes_eq_ignore_ascii_case(b"", b""));
}
