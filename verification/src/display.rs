//! Colouring text with hex colours for the terminal.
use vstd::prelude::*;
use crate::config::{hex_color_of, Config};
use crate::text::{contains_seq, decimal_digits, occurs_at};

verus! {

/// The terminal sequence that resets all styles, `ESC [ 0 m`.
pub open spec fn reset_sequence() -> Seq<char> {
    seq!['\x1b', '[', '0', 'm']
}

/// `text` with `style` written again after each reset sequence in it, so that
/// a reset inside the text does not end the colour early.
pub open spec fn restyle_after_resets(text: Seq<char>, style: Seq<char>) -> Seq<char>
    decreases text.len(),
{
    if text.len() == 0 {
        text
    } else if text.len() >= 4 && text.take(4) == reset_sequence() {
        reset_sequence() + style + restyle_after_resets(text.skip(4), style)
    } else {
        seq![text[0]] + restyle_after_resets(text.drop_first(), style)
    }
}

/// The 24-bit foreground colour sequence `ESC [ 38;2;R;G;B m`.
pub open spec fn truecolor_sequence(r: u8, g: u8, b: u8) -> Seq<char> {
    seq!['\x1b', '[', '3', '8', ';', '2', ';'] + decimal_digits(r as nat) + seq![';']
        + decimal_digits(g as nat) + seq![';'] + decimal_digits(b as nat) + seq!['m']
}

/// One of the sixteen basic foreground colour sequences, `ESC [ 3x m` or
/// `ESC [ 9x m` with `x` from `0` to `7`.
pub open spec fn is_basic_color_sequence(st: Seq<char>) -> bool {
    &&& st.len() == 5
    &&& st[0] == '\x1b'
    &&& st[1] == '['
    &&& (st[2] == '3' || st[2] == '9')
    &&& '0' <= st[3] && st[3] <= '7'
    &&& st[4] == 'm'
}

/// What the terminal text for `text` in the colour `(r, g, b)` can be: the
/// text unchanged, when the terminal is not coloured, or the text between a
/// foreground colour sequence and a reset. The colour sequence is the 24-bit
/// one, or a basic colour where the terminal does not announce 24-bit colour.
pub open spec fn painted(text: Seq<char>, r: u8, g: u8, b: u8, out: Seq<char>) -> bool {
    ||| out == text
    ||| exists|st: Seq<char>| #[trigger] painted_with(text, r, g, b, st, out)
}

/// `out` is `text` in the colour `(r, g, b)` written with the sequence `st`.
pub open spec fn painted_with(text: Seq<char>, r: u8, g: u8, b: u8, st: Seq<char>, out: Seq<char>) -> bool {
    &&& st == truecolor_sequence(r, g, b) || is_basic_color_sequence(st)
    &&& out == st + restyle_after_resets(text, st) + reset_sequence()
}

/// Calls `colored::Colorize::truecolor` on `text` and renders the coloured
/// string with `to_string`. Trusted, as colored's source shows it: when
/// colouring is off (by the environment or the terminal) the text comes back
/// unchanged; otherwise it is wrapped in a foreground sequence and a reset,
/// with the sequence repeated after each reset inside the text. Which basic
/// colour stands in where 24-bit colour is not announced is not stated.
#[verifier::external_body]
fn paint_truecolor(text: &str, r: u8, g: u8, b: u8) -> (out: String)
    ensures
        painted(text@, r, g, b, out@),
{
    colored::Colorize::truecolor(text, r, g, b).to_string()
}

/// What `colorize(text, hex)` can return: the painted text where `hex` is a
/// valid colour, the text unchanged where it is not.
pub open spec fn colorize_outcome(text: Seq<char>, hex: Seq<char>, out: Seq<char>) -> bool {
    match hex_color_of(hex) {
        Some((r, g, b)) => painted(text, r, g, b, out),
        None => out == text,
    }
}

/// Applies the hex colour `hex` (such as `"#RRGGBB"`) to `text`; falls back
/// to the plain text when `hex` is not a valid colour.
pub fn colorize(text: &str, hex: &str) -> (out: String)
    ensures
        colorize_outcome(text@, hex@, out@),
{
    match Config::parse_hex_color(hex) {
        Some((r, g, b)) => paint_truecolor(text, r, g, b),
        None => text.to_string(),
    }
}


/// A text without escape characters is not changed by restyling.
pub proof fn lemma_restyle_plain(text: Seq<char>, style: Seq<char>)
    requires
        !text.contains('\x1b'),
    ensures
        restyle_after_resets(text, style) == text,
    decreases text.len(),
{
    if text.len() > 0 {
        if text.len() >= 4 && text.take(4) == reset_sequence() {
            assert(text[0] == text.take(4)[0]);
        }
        assert(!text.drop_first().contains('\x1b')) by {
            if text.drop_first().contains('\x1b') {
                let j = choose|j: int| 0 <= j < text.drop_first().len() && text.drop_first()[j] == '\x1b';
                assert(text[j + 1] == '\x1b');
            }
        }
        lemma_restyle_plain(text.drop_first(), style);
        assert(seq![text[0]] + text.drop_first() =~= text);
    }
}

/// Colouring keeps the text: where it holds no escape character, whatever
/// `colorize` returns holds the text unchanged.
pub proof fn lemma_colorize_keeps_text(text: Seq<char>, hex: Seq<char>, out: Seq<char>)
    requires
        !text.contains('\x1b'),
        colorize_outcome(text, hex, out),
    ensures
        contains_seq(out, text),
{
    if out == text {
        assert(out.subrange(0, text.len() as int) =~= text);
        assert(occurs_at(out, text, 0));
    } else {
        let (r, g, b) = hex_color_of(hex).unwrap();
        assert(painted(text, r, g, b, out));
        let st = choose|st: Seq<char>| painted_with(text, r, g, b, st, out);
        lemma_restyle_plain(text, st);
        assert(out.subrange(st.len() as int, st.len() + text.len() as int) =~= text);
        assert(occurs_at(out, text, st.len() as int));
    }
}

} // verus!
