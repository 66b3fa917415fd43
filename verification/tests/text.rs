use ace::text::{header_text, last_nonempty_segment, u64_text};

#[test]
fn decimal_rendering_matches_to_string() {
    for n in [0u64, 7, 10, 404, 1000, 65535, u64::MAX] {
        assert_eq!(u64_text(n), n.to_string());
    }
}

#[test]
fn header_text_accepts_visible_ascii_and_tab() {
    assert_eq!(header_text(b"https://x/y"), Some("https://x/y".to_string()));
    assert_eq!(header_text(b"a\tb"), Some("a\tb".to_string()));
    assert_eq!(header_text(b""), Some(String::new()));
}

#[test]
fn header_text_refuses_control_and_high_bytes() {
    assert_eq!(header_text(b"a\nb"), None);
    assert_eq!(header_text(b"\x7f"), None);
    assert_eq!(header_text(&[0xc3, 0xa9]), None);
}

#[test]
fn last_segment_skips_empty_pieces() {
    assert_eq!(last_nonempty_segment("simulations/abc"), Some("abc".to_string()));
    assert_eq!(last_nonempty_segment("simulations/abc/"), Some("abc".to_string()));
    assert_eq!(last_nonempty_segment("a//"), Some("a".to_string()));
    assert_eq!(last_nonempty_segment("abc"), Some("abc".to_string()));
    assert_eq!(last_nonempty_segment(""), None);
    assert_eq!(last_nonempty_segment("///"), None);
}

#[test]
fn last_segment_agrees_with_split_rfind() {
    for s in ["", "/", "a", "a/b", "a/b/", "//x//y//", "x/", "/x", "é/ü"] {
        let expected = s.split('/').rfind(|p| !p.is_empty()).map(|p| p.to_string());
        assert_eq!(last_nonempty_segment(s), expected, "{:?}", s);
    }
}
