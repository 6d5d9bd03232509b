use showit::display::colorize;

#[test]
fn colorize_valid_hex() {
    let s = colorize("hello", "#00FFFF");
    assert!(s.contains("hello"));
}

#[test]
fn colorize_invalid_hex_still_returns_text() {
    let s = colorize("hello", "notacolor");
    assert!(s.contains("hello"));
}

#[test]
fn colorize_invalid_hex_is_plain() {
    assert_eq!(colorize("hello", "notacolor"), "hello");
    assert_eq!(colorize("", "#12"), "");
}
