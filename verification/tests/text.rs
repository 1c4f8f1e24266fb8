use luma_translate::text::{char_is_whitespace, starts_with, str_equal, trimmed, trimmed_then_end_matches};

#[test]
fn whitespace_matches_std() {
    for code in 0u32..0x11000 {
        if let Some(c) = char::from_u32(code) {
            assert_eq!(char_is_whitespace(c), c.is_whitespace(), "{code:#x}");
        }
    }
}

#[test]
fn trimming_matches_std() {
    for s in ["", " ", "a", "  a b  ", "\u{3000}全角\u{3000}", "\t\n x\r\n", "x/", " x// "] {
        assert_eq!(trimmed(s), s.trim());
        assert_eq!(trimmed_then_end_matches(s, '/'), s.trim().trim_end_matches('/'));
    }
}

#[test]
fn prefixes_and_equality() {
    assert!(starts_with("https://x", "https://"));
    assert!(!starts_with("http", "https://"));
    assert!(starts_with("abc", ""));
    assert!(str_equal("自动检测", "自动检测"));
    assert!(!str_equal("自动", "自动检测"));
}
