use showit::text::{
    contains_text, decimal_string, parse_usize, same_text, trim_white_space,
};

#[test]
fn trims_unicode_white_space() {
    assert_eq!(trim_white_space("  a b \t\n"), "a b");
    assert_eq!(trim_white_space("\u{3000}x\u{a0}"), "x");
    assert_eq!(trim_white_space("   "), "");
}

#[test]
fn parses_usize_like_std() {
    assert_eq!(parse_usize("42"), Some(42));
    assert_eq!(parse_usize("+7"), Some(7));
    assert_eq!(parse_usize("+"), None);
    assert_eq!(parse_usize(""), None);
    assert_eq!(parse_usize("-1"), None);
    assert_eq!(parse_usize("1 2"), None);
    assert_eq!(parse_usize(&usize::MAX.to_string()), Some(usize::MAX));
    assert_eq!(parse_usize("99999999999999999999999"), None);
}

#[test]
fn writes_decimals() {
    assert_eq!(decimal_string(0), "0");
    assert_eq!(decimal_string(10), "10");
    assert_eq!(decimal_string(usize::MAX), usize::MAX.to_string());
}

#[test]
fn compares_and_searches_text() {
    assert!(same_text("abc", "abc"));
    assert!(!same_text("abc", "abd"));
    assert!(contains_text("windows terminal", "terminal"));
    assert!(contains_text("abc", ""));
    assert!(!contains_text("ab", "abc"));
}
