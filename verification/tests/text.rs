use inference_core::text::{
    contains_str, decimal_string, is_whitespace, parse_u64, starts_with_ascii_lowercase,
    to_ascii_lower, trim_whitespace,
};

#[test]
fn decimal_rendering() {
    assert_eq!(decimal_string(0), "0");
    assert_eq!(decimal_string(7), "7");
    assert_eq!(decimal_string(10), "10");
    assert_eq!(decimal_string(1_234_567_890), "1234567890");
    assert_eq!(decimal_string(u128::MAX), u128::MAX.to_string());
}

#[test]
fn trimming_matches_std() {
    for s in ["", "  ", " a ", "\u{a0}x y\u{2003}\n", "abc", "\t\u{3000}z", "é "] {
        assert_eq!(trim_whitespace(s), s.trim(), "{s:?}");
    }
}

#[test]
fn whitespace_matches_std() {
    for c in [' ', '\t', '\n', '\u{b}', '\u{c}', '\r', '\u{85}', '\u{a0}', '\u{1680}', '\u{2000}',
              '\u{200a}', '\u{2028}', '\u{2029}', '\u{202f}', '\u{205f}', '\u{3000}', 'a', '\u{200b}', '\u{180e}', '0'] {
        assert_eq!(is_whitespace(c), c.is_whitespace(), "{c:?}");
    }
}

#[test]
fn lowercase_and_prefix() {
    assert_eq!(to_ascii_lower('A'), 'a');
    assert_eq!(to_ascii_lower('z'), 'z');
    assert_eq!(to_ascii_lower('É'), 'É');
    assert!(starts_with_ascii_lowercase("AuDiO/WaV", "audio/wav"));
    assert!(!starts_with_ascii_lowercase("audio", "audio/wav"));
    assert!(starts_with_ascii_lowercase("x", ""));
}

#[test]
fn substring_search() {
    assert!(contains_str("abc", "bc"));
    assert!(contains_str("abc", ""));
    assert!(!contains_str("abc", "cb"));
    assert!(!contains_str("ab", "abc"));
}

#[test]
fn parse_matches_std() {
    for s in ["0", "42", "+42", "", "+", "-1", " 1", "1 ", "007", "18446744073709551615", "18446744073709551616", "9a"] {
        assert_eq!(parse_u64(s), s.parse::<u64>().ok(), "{s:?}");
    }
}

#[test]
fn trimming_twice_changes_nothing() {
    for s in [" a b ", "\u{3000}\u{2029}", "x"] {
        let once = trim_whitespace(s);
        assert_eq!(trim_whitespace(&once), once);
        assert!(!once.starts_with(char::is_whitespace) && !once.ends_with(char::is_whitespace));
    }
}
