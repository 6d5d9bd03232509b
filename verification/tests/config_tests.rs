use showit::config::{default_colors, Config};

#[test]
fn parse_full_hex() {
    assert_eq!(Config::parse_hex_color("#00FFFF"), Some((0, 255, 255)));
    assert_eq!(Config::parse_hex_color("FF6B6B"), Some((255, 107, 107)));
}

#[test]
fn parse_short_hex() {
    assert_eq!(Config::parse_hex_color("#FFF"), Some((255, 255, 255)));
    assert_eq!(Config::parse_hex_color("#000"), Some((0, 0, 0)));
}

#[test]
fn parse_invalid_hex() {
    assert_eq!(Config::parse_hex_color("#ZZZZZZ"), None);
    assert_eq!(Config::parse_hex_color("notacolor"), None);
}

#[test]
fn default_config_has_colors() {
    let cfg = Config::default();
    assert!(!cfg.colors.is_empty());
}

#[test]
fn parse_hex_skips_every_leading_hash() {
    assert_eq!(Config::parse_hex_color("##FFF"), Some((255, 255, 255)));
    assert_eq!(Config::parse_hex_color("#abc"), Config::parse_hex_color("aabbcc"));
    assert_eq!(Config::parse_hex_color("#abc"), Some((0xaa, 0xbb, 0xcc)));
}

#[test]
fn parse_hex_refuses_signs() {
    // Only hex digits are accepted: a sign is no digit.
    assert_eq!(Config::parse_hex_color("+F+F+F"), None);
    assert_eq!(Config::parse_hex_color("+F0000"), None);
    assert_eq!(Config::parse_hex_color("+++"), None);
    assert_eq!(Config::parse_hex_color("-F0000"), None);
}

#[test]
fn parse_hex_wrong_lengths() {
    assert_eq!(Config::parse_hex_color(""), None);
    assert_eq!(Config::parse_hex_color("#"), None);
    assert_eq!(Config::parse_hex_color("#12345"), None);
    assert_eq!(Config::parse_hex_color("#1234567"), None);
    assert_eq!(Config::parse_hex_color("\u{e9}ab"), None);
    assert_eq!(Config::parse_hex_color("#ab\u{e9}"), None);
}

#[test]
fn default_colors_all_parse() {
    let cfg = Config::default();
    assert_eq!(cfg.colors.len(), 12);
    assert_eq!(cfg.colors, default_colors());
    for c in &cfg.colors {
        assert!(Config::parse_hex_color(c).is_some());
    }
    assert_eq!(cfg.index_color, "#888888");
    assert_eq!(cfg.prompt_color, "#00BFFF");
    assert_eq!(cfg.match_color, "#FFFF00");
    assert_eq!(cfg.error_color, "#FF4444");
    assert_eq!(cfg.success_color, "#44FF88");
    assert_eq!(cfg.doc_color, "#00FFFF");
    assert_eq!(cfg.app_color, "#FFFF00");
    assert_eq!(cfg.user_color, "#AA55FF");
    assert_eq!(cfg.colors[1], "#FF6B6B");
}
