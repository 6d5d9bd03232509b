use showit::display::colorize;

#[test]
fn colorize_forced_wraps_text() {
    colored::control::set_override(true);
    let s = colorize("hello", "#00FF80");
    assert!(s.starts_with("\x1b["));
    assert!(s.ends_with("hello\x1b[0m"));
    let m = s.find('m').unwrap();
    let code = &s[2..m];
    assert!(code == "38;2;0;255;128" || (code.len() == 2 && (code.starts_with('3') || code.starts_with('9'))));
}
