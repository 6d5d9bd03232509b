//! The colour settings and the parsing of hex colour strings.
use vstd::prelude::*;
use crate::text::{char_vec, digit_value, is_digit};

verus! {

/// Colours used by the window list and the messages, each a hex colour
/// string such as `"#00FFFF"`.
#[derive(Debug, Clone)]
pub struct Config {
    /// A palette of title colours. The list does not use it: entries are
    /// coloured by their parts (document, application, user tag).
    pub colors: Vec<String>,
    /// Colour of the index numbers in the list.
    pub index_color: String,
    /// Colour of the prompt and status messages.
    pub prompt_color: String,
    /// Colour of the query in the header of the window list.
    pub match_color: String,
    /// Colour of error messages.
    pub error_color: String,
    /// Colour of success messages.
    pub success_color: String,
    /// Colour of the document or path part of a title (left of `" - "`).
    pub doc_color: String,
    /// Colour of the application name (right of `" - "`).
    pub app_color: String,
    /// Colour of the user or role tag that ends a title, such as `"(ADMIN)"`.
    pub user_color: String,
}

/// A hexadecimal digit.
pub open spec fn is_hex_digit(c: char) -> bool {
    is_digit(c) || ('a' <= c && c <= 'f') || ('A' <= c && c <= 'F')
}

/// The value of a hexadecimal digit.
pub open spec fn hex_value(c: char) -> nat {
    if is_digit(c) {
        digit_value(c)
    } else if 'a' <= c && c <= 'f' {
        (c as int - 'a' as int + 10) as nat
    } else {
        (c as int - 'A' as int + 10) as nat
    }
}

/// The byte that the two hex digits `a b` write, or `None` when either is
/// not a hex digit.
pub open spec fn hex_pair(a: char, b: char) -> Option<u8> {
    if is_hex_digit(a) && is_hex_digit(b) {
        Some((hex_value(a) * 16 + hex_value(b)) as u8)
    } else {
        None
    }
}

/// `s` without its leading `#` characters.
pub open spec fn strip_hashes(s: Seq<char>) -> Seq<char>
    decreases s.len(),
{
    if s.len() > 0 && s[0] == '#' {
        strip_hashes(s.drop_first())
    } else {
        s
    }
}

/// The colour that a hex colour string names: after any leading `#`, six
/// hex digits in three pairs (`RRGGBB`), or three hex digits that each stand
/// for a doubled digit (`RGB`). Anything else names no colour.
pub open spec fn hex_color_of(hex: Seq<char>) -> Option<(u8, u8, u8)> {
    let s = strip_hashes(hex);
    if s.len() == 6 {
        match (hex_pair(s[0], s[1]), hex_pair(s[2], s[3]), hex_pair(s[4], s[5])) {
            (Some(r), Some(g), Some(b)) => Some((r, g, b)),
            _ => None,
        }
    } else if s.len() == 3 {
        if is_hex_digit(s[0]) && is_hex_digit(s[1]) && is_hex_digit(s[2]) {
            Some(
                (
                    (hex_value(s[0]) * 17) as u8,
                    (hex_value(s[1]) * 17) as u8,
                    (hex_value(s[2]) * 17) as u8,
                ),
            )
        } else {
            None
        }
    } else {
        None
    }
}

fn hex_digit_value(c: char) -> (r: Option<u8>)
    ensures
        r matches Some(v) ==> is_hex_digit(c) && v == hex_value(c),
        r is None ==> !is_hex_digit(c),
{
    if '0' <= c && c <= '9' {
        Some((c as u32 - '0' as u32) as u8)
    } else if 'a' <= c && c <= 'f' {
        Some((c as u32 - 'a' as u32 + 10) as u8)
    } else if 'A' <= c && c <= 'F' {
        Some((c as u32 - 'A' as u32 + 10) as u8)
    } else {
        None
    }
}

fn hex_pair_value(a: char, b: char) -> (r: Option<u8>)
    ensures
        r == hex_pair(a, b),
{
    match (hex_digit_value(a), hex_digit_value(b)) {
        (Some(x), Some(y)) => Some(x * 16 + y),
        _ => None,
    }
}

fn doubled_hex_value(c: char) -> (r: Option<u8>)
    ensures
        r matches Some(v) ==> is_hex_digit(c) && v == (hex_value(c) * 17) as u8,
        r is None ==> !is_hex_digit(c),
{
    match hex_digit_value(c) {
        Some(x) => Some(x * 17),
        None => None,
    }
}

impl Config {
    /// Parses a hex colour string into its red, green and blue components.
    /// Accepts `"#RRGGBB"`, `"#RGB"`, `"RRGGBB"` and `"RGB"`; any number of
    /// leading `#` is skipped.
    pub fn parse_hex_color(hex: &str) -> (r: Option<(u8, u8, u8)>)
        ensures
            r == hex_color_of(hex@),
    {
        let v = char_vec(hex);
        let n = v.len();
        let mut i: usize = 0;
        assert(hex@.skip(0) =~= hex@);
        while i < n && v[i] == '#'
            invariant
                v@ == hex@,
                n == v@.len(),
                i <= n,
                strip_hashes(hex@) == strip_hashes(hex@.skip(i as int)),
            decreases n - i,
        {
            assert(hex@.skip(i as int).drop_first() =~= hex@.skip(i + 1));
            i = i + 1;
        }
        let ghost s = hex@.skip(i as int);
        assert(strip_hashes(s) == s);
        if n - i == 6 {
            assert(s[0] == v@[i as int] && s[1] == v@[i + 1] && s[2] == v@[i + 2]);
            assert(s[3] == v@[i + 3] && s[4] == v@[i + 4] && s[5] == v@[i + 5]);
            let r = hex_pair_value(v[i], v[i + 1]);
            let g = hex_pair_value(v[i + 2], v[i + 3]);
            let b = hex_pair_value(v[i + 4], v[i + 5]);
            match (r, g, b) {
                (Some(r), Some(g), Some(b)) => Some((r, g, b)),
                _ => None,
            }
        } else if n - i == 3 {
            assert(s[0] == v@[i as int] && s[1] == v@[i + 1] && s[2] == v@[i + 2]);
            let r = doubled_hex_value(v[i]);
            let g = doubled_hex_value(v[i + 1]);
            let b = doubled_hex_value(v[i + 2]);
            match (r, g, b) {
                (Some(r), Some(g), Some(b)) => Some((r, g, b)),
                _ => None,
            }
        } else {
            None
        }
    }
}


/// The palette that titles cycle through by default.
pub open spec fn default_palette() -> Seq<Seq<char>> {
    seq![
        "#00FFFF"@,
        "#FF6B6B"@,
        "#FFD700"@,
        "#7CFC00"@,
        "#FF69B4"@,
        "#00CED1"@,
        "#FFA500"@,
        "#DA70D6"@,
        "#ADFF2F"@,
        "#1E90FF"@,
        "#FF4500"@,
        "#98FB98"@,
    ]
}

/// Default colour of the document part of a title.
pub fn default_doc_color() -> (r: String)
    ensures
        r@ == "#00FFFF"@,
{
    "#00FFFF".to_string()
}

/// Default colour of the application name.
pub fn default_app_color() -> (r: String)
    ensures
        r@ == "#FFFF00"@,
{
    "#FFFF00".to_string()
}

/// Default colour of the user tag.
pub fn default_user_color() -> (r: String)
    ensures
        r@ == "#AA55FF"@,
{
    "#AA55FF".to_string()
}

/// The default palette of title colours.
pub fn default_colors() -> (r: Vec<String>)
    ensures
        r@.map_values(|c: String| c@) == default_palette(),
{
    let r = vec![
        "#00FFFF".to_string(),
        "#FF6B6B".to_string(),
        "#FFD700".to_string(),
        "#7CFC00".to_string(),
        "#FF69B4".to_string(),
        "#00CED1".to_string(),
        "#FFA500".to_string(),
        "#DA70D6".to_string(),
        "#ADFF2F".to_string(),
        "#1E90FF".to_string(),
        "#FF4500".to_string(),
        "#98FB98".to_string(),
    ];
    assert(r@.map_values(|c: String| c@) =~= default_palette());
    r
}

/// Default colour of the index numbers.
pub fn default_index_color() -> (r: String)
    ensures
        r@ == "#888888"@,
{
    "#888888".to_string()
}

/// Default colour of the prompt.
pub fn default_prompt_color() -> (r: String)
    ensures
        r@ == "#00BFFF"@,
{
    "#00BFFF".to_string()
}

/// Default colour of the match highlight.
pub fn default_match_color() -> (r: String)
    ensures
        r@ == "#FFFF00"@,
{
    "#FFFF00".to_string()
}

/// Default colour of error messages.
pub fn default_error_color() -> (r: String)
    ensures
        r@ == "#FF4444"@,
{
    "#FF4444".to_string()
}

/// Default colour of success messages.
pub fn default_success_color() -> (r: String)
    ensures
        r@ == "#44FF88"@,
{
    "#44FF88".to_string()
}

/// The settings used when no configuration file exists.
pub open spec fn is_default_config(c: Config) -> bool {
    &&& c.colors@.map_values(|s: String| s@) == default_palette()
    &&& c.index_color@ == "#888888"@
    &&& c.prompt_color@ == "#00BFFF"@
    &&& c.match_color@ == "#FFFF00"@
    &&& c.error_color@ == "#FF4444"@
    &&& c.success_color@ == "#44FF88"@
    &&& c.doc_color@ == "#00FFFF"@
    &&& c.app_color@ == "#FFFF00"@
    &&& c.user_color@ == "#AA55FF"@
}

impl Default for Config {
    fn default() -> (r: Self)
        ensures
            is_default_config(r),
    {
        Config {
            colors: default_colors(),
            index_color: default_index_color(),
            prompt_color: default_prompt_color(),
            match_color: default_match_color(),
            error_color: default_error_color(),
            success_color: default_success_color(),
            doc_color: default_doc_color(),
            app_color: default_app_color(),
            user_color: default_user_color(),
        }
    }
}


/// Leading `#` characters do not change the colour that a string names:
/// `"#RRGGBB"` and `"RRGGBB"` are the same colour.
pub proof fn lemma_hash_prefix_ignored(s: Seq<char>)
    ensures
        hex_color_of(seq!['#'] + s) == hex_color_of(s),
{
    assert((seq!['#'] + s).drop_first() =~= s);
}

/// The short form `RGB` names the colour of the long form `RRGGBB`.
pub proof fn lemma_short_form_doubles(r: char, g: char, b: char)
    requires
        is_hex_digit(r),
        is_hex_digit(g),
        is_hex_digit(b),
    ensures
        hex_color_of(seq![r, g, b]) == hex_color_of(seq![r, r, g, g, b, b]),
        hex_color_of(seq![r, g, b]) is Some,
{
    assert(strip_hashes(seq![r, g, b]) == seq![r, g, b]);
    assert(strip_hashes(seq![r, r, g, g, b, b]) == seq![r, r, g, g, b, b]);
}

/// `s` is written `#RRGGBB` with six hex digits.
pub open spec fn is_long_hex_form(s: Seq<char>) -> bool {
    &&& s.len() == 7
    &&& s[0] == '#'
    &&& is_hex_digit(s[1])
    &&& is_hex_digit(s[2])
    &&& is_hex_digit(s[3])
    &&& is_hex_digit(s[4])
    &&& is_hex_digit(s[5])
    &&& is_hex_digit(s[6])
}

/// A string written `#RRGGBB` names a colour.
pub proof fn lemma_long_hex_form_valid(s: Seq<char>)
    requires
        is_long_hex_form(s),
    ensures
        hex_color_of(s) is Some,
{
    let t = s.drop_first();
    assert(strip_hashes(t) == t);
}

/// Every string of `colors` written `#RRGGBB` names a colour.
proof fn lemma_long_forms_valid(colors: Seq<Seq<char>>)
    requires
        forall|i: int| 0 <= i < colors.len() ==> is_long_hex_form(#[trigger] colors[i]),
    ensures
        forall|i: int| 0 <= i < colors.len() ==> #[trigger] hex_color_of(colors[i]) is Some,
{
    assert forall|i: int| 0 <= i < colors.len() implies #[trigger] hex_color_of(colors[i]) is Some by {
        lemma_long_hex_form_valid(colors[i]);
    }
}

/// Every colour of the default settings is a valid hex colour.
pub proof fn lemma_default_colors_valid()
    ensures
        forall|i: int| 0 <= i < default_palette().len() ==> #[trigger] hex_color_of(default_palette()[i]) is Some,
        hex_color_of("#888888"@) is Some,
        hex_color_of("#00BFFF"@) is Some,
        hex_color_of("#FFFF00"@) is Some,
        hex_color_of("#FF4444"@) is Some,
        hex_color_of("#44FF88"@) is Some,
        hex_color_of("#00FFFF"@) is Some,
        hex_color_of("#AA55FF"@) is Some,
{
    reveal_strlit("#00FFFF");
    reveal_strlit("#FF6B6B");
    reveal_strlit("#FFD700");
    reveal_strlit("#7CFC00");
    reveal_strlit("#FF69B4");
    reveal_strlit("#00CED1");
    reveal_strlit("#FFA500");
    reveal_strlit("#DA70D6");
    reveal_strlit("#ADFF2F");
    reveal_strlit("#1E90FF");
    reveal_strlit("#FF4500");
    reveal_strlit("#98FB98");
    reveal_strlit("#888888");
    reveal_strlit("#00BFFF");
    reveal_strlit("#FFFF00");
    reveal_strlit("#FF4444");
    reveal_strlit("#44FF88");
    reveal_strlit("#AA55FF");
    let settings = seq!["#888888"@, "#00BFFF"@, "#FFFF00"@, "#FF4444"@, "#44FF88"@, "#00FFFF"@, "#AA55FF"@];
    lemma_long_forms_valid(default_palette());
    lemma_long_forms_valid(settings);
}

} // verus!
