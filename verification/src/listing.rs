//! The layout of one entry of the window list.
use vstd::prelude::*;
use crate::config::Config;
use crate::display::{colorize, colorize_outcome};
use crate::text::{
    decimal_digits, decimal_string, char_vec, find_last, last_occurrence, lemma_last_occurrence_bounds, to_lowercase,
    unicode_lowercase,
};
use crate::windows_api::{
    exe_stem, label_for, label_of, stem_outcome, unreliable_for, unreliable_of, WindowInfo,
};

verus! {

/// A stretch of text and the hex colour it is shown in (`None`: uncoloured).
#[derive(Debug, Clone)]
pub struct Piece {
    pub text: String,
    pub color: Option<String>,
}

/// The text and colour of a piece, as plain values.
pub open spec fn piece_view(p: Piece) -> (Seq<char>, Option<Seq<char>>) {
    (
        p.text@,
        match p.color {
            Some(c) => Some(c@),
            None => None,
        },
    )
}

/// The separator between the document and the application in a title.
pub open spec fn dash_separator() -> Seq<char> {
    seq![' ', '-', ' ']
}

/// The start of a trailing user tag, as in `"App (John)"`.
pub open spec fn tag_opening() -> Seq<char> {
    seq![' ', '(']
}

/// The pieces of the application part of a title: a trailing `"(tag)"`
/// after `" ("` is shown in the user colour, apart from the application
/// name; a part that ends with `)` but has no `" ("` is all in the user
/// colour; any other part is in the application colour.
pub open spec fn app_layout(app: Seq<char>, cfg: Config) -> Seq<(Seq<char>, Option<Seq<char>>)> {
    if app.len() > 0 && app.last() == ')' {
        match last_occurrence(app, tag_opening()) {
            Some(t) => seq![
                (app.take(t), Some(cfg.app_color@)),
                (seq![' '], None),
                (app.skip(t + 1), Some(cfg.user_color@)),
            ],
            None => seq![(app, Some(cfg.user_color@))],
        }
    } else {
        seq![(app, Some(cfg.app_color@))]
    }
}

/// The pieces of a list entry. A window whose title is chosen by the user
/// shows `[label]` in the application colour, two spaces and the title in
/// the index colour. Any other title is split at its last `" - "` into the
/// document (document colour), the separator (index colour) and the
/// application part; a title without `" - "` is all in the document colour.
pub open spec fn entry_layout(title: Seq<char>, unreliable: bool, label: Seq<char>, cfg: Config) -> Seq<
    (Seq<char>, Option<Seq<char>>),
> {
    if unreliable {
        seq![
            (seq!['['] + label + seq![']'], Some(cfg.app_color@)),
            (seq![' ', ' '], None),
            (title, Some(cfg.index_color@)),
        ]
    } else {
        match last_occurrence(title, dash_separator()) {
            Some(pos) => seq![
                (title.take(pos), Some(cfg.doc_color@)),
                (dash_separator(), Some(cfg.index_color@)),
            ] + app_layout(title.skip(pos + 3), cfg),
            None => seq![(title, Some(cfg.doc_color@))],
        }
    }
}

/// What the terminal text of one piece can be.
pub open spec fn piece_outcome(piece: (Seq<char>, Option<Seq<char>>), out: Seq<char>) -> bool {
    match piece.1 {
        Some(hex) => colorize_outcome(piece.0, hex, out),
        None => out == piece.0,
    }
}

/// The texts one after the other.
pub open spec fn joined(outs: Seq<Seq<char>>) -> Seq<char>
    decreases outs.len(),
{
    if outs.len() == 0 {
        Seq::empty()
    } else {
        joined(outs.drop_last()) + outs.last()
    }
}

/// `out` is the pieces rendered one after the other.
pub open spec fn rendered(pieces: Seq<(Seq<char>, Option<Seq<char>>)>, out: Seq<char>) -> bool {
    exists|outs: Seq<Seq<char>>|
        {
            &&& outs.len() == pieces.len()
            &&& forall|i: int| 0 <= i < outs.len() ==> piece_outcome(pieces[i], #[trigger] outs[i])
            &&& out == joined(outs)
        }
}

fn colored_piece(text: String, color: &String) -> (p: Piece)
    ensures
        piece_view(p) == (text@, Some(color@)),
{
    Piece { text, color: Some(color.clone()) }
}

fn plain_piece(text: &str) -> (p: Piece)
    ensures
        piece_view(p) == (text@, None::<Seq<char>>),
{
    Piece { text: text.to_string(), color: None }
}

fn app_pieces(app: &str, cfg: &Config, out: &mut Vec<Piece>)
    ensures
        final(out)@.map_values(|p: Piece| piece_view(p)) == old(out)@.map_values(
            |p: Piece| piece_view(p),
        ) + app_layout(app@, *cfg),
{
    let chars = char_vec(app);
    let n = chars.len();
    let ghost before = out@.map_values(|p: Piece| piece_view(p));
    if n > 0 && chars[n - 1] == ')' {
        let opening = char_vec(" (");
        proof {
            reveal_strlit(" (");
        }
        assert(opening@ =~= tag_opening());
        proof {
            lemma_last_occurrence_bounds(app@, tag_opening());
        }
        match find_last(&chars, &opening) {
            Some(t) => {
                out.push(colored_piece(app.substring_char(0, t).to_string(), &cfg.app_color));
                proof {
                    reveal_strlit(" ");
                }
                out.push(plain_piece(" "));
                out.push(colored_piece(app.substring_char(t + 1, n).to_string(), &cfg.user_color));
                assert(app@.subrange(0, t as int) =~= app@.take(t as int));
                assert(app@.subrange(t + 1, n as int) =~= app@.skip(t + 1));
                assert(" "@ =~= seq![' ']);
            },
            None => {
                out.push(colored_piece(app.to_string(), &cfg.user_color));
            },
        }
    } else {
        out.push(colored_piece(app.to_string(), &cfg.app_color));
    }
    assert(out@.map_values(|p: Piece| piece_view(p)) =~= before + app_layout(app@, *cfg));
}

/// The pieces of a list entry for a window with this title, unreliability
/// and type label.
pub fn entry_pieces(title: &str, unreliable: bool, label: &str, cfg: &Config) -> (r: Vec<Piece>)
    ensures
        r@.map_values(|p: Piece| piece_view(p)) == entry_layout(title@, unreliable, label@, *cfg),
{
    let mut out: Vec<Piece> = Vec::new();
    if unreliable {
        let mut tag = "[".to_string();
        tag.append(label);
        tag.append("]");
        proof {
            reveal_strlit("[");
            reveal_strlit("]");
            reveal_strlit("  ");
        }
        out.push(colored_piece(tag, &cfg.app_color));
        out.push(plain_piece("  "));
        out.push(colored_piece(title.to_string(), &cfg.index_color));
        assert(tag@ =~= seq!['['] + label@ + seq![']']);
        assert("  "@ =~= seq![' ', ' ']);
        assert(out@.map_values(|p: Piece| piece_view(p)) =~= entry_layout(
            title@,
            unreliable,
            label@,
            *cfg,
        ));
        return out;
    }
    let chars = char_vec(title);
    let sep = char_vec(" - ");
    proof {
        reveal_strlit(" - ");
    }
    assert(sep@ =~= dash_separator());
    proof {
        lemma_last_occurrence_bounds(title@, dash_separator());
    }
    match find_last(&chars, &sep) {
        Some(pos) => {
            let n = chars.len();
            out.push(colored_piece(title.substring_char(0, pos).to_string(), &cfg.doc_color));
            out.push(colored_piece(" - ".to_string(), &cfg.index_color));
            assert(" - "@ =~= dash_separator());
            assert(title@.subrange(0, pos as int) =~= title@.take(pos as int));
            let ghost front = out@.map_values(|p: Piece| piece_view(p));
            assert(front =~= seq![
                (title@.take(pos as int), Some(cfg.doc_color@)),
                (dash_separator(), Some(cfg.index_color@)),
            ]);
            let app = title.substring_char(pos + 3, n);
            assert(app@ =~= title@.skip(pos + 3));
            app_pieces(app, cfg, &mut out);
        },
        None => {
            out.push(colored_piece(title.to_string(), &cfg.doc_color));
            assert(out@.map_values(|p: Piece| piece_view(p)) =~= entry_layout(
                title@,
                unreliable,
                label@,
                *cfg,
            ));
        },
    }
    out
}

/// Renders the pieces one after the other, each in its colour.
pub fn render(pieces: &Vec<Piece>) -> (r: String)
    ensures
        rendered(pieces@.map_values(|p: Piece| piece_view(p)), r@),
{
    let ghost views = pieces@.map_values(|p: Piece| piece_view(p));
    let mut out = String::new();
    let ghost mut outs: Seq<Seq<char>> = Seq::empty();
    let mut i: usize = 0;
    while i < pieces.len()
        invariant
            views == pieces@.map_values(|p: Piece| piece_view(p)),
            i <= pieces@.len(),
            outs.len() == i,
            forall|j: int| 0 <= j < i ==> piece_outcome(views[j], #[trigger] outs[j]),
            out@ == joined(outs),
        decreases pieces@.len() - i,
    {
        let p = &pieces[i];
        let part = match &p.color {
            Some(hex) => colorize(p.text.as_str(), hex.as_str()),
            None => p.text.clone(),
        };
        assert(views[i as int] == piece_view(*p));
        out.append(part.as_str());
        proof {
            let next = outs.push(part@);
            assert(next.drop_last() =~= outs);
            outs = next;
        }
        i = i + 1;
    }
    out
}

/// Formats a single window entry for the list. For windows whose title is
/// chosen by the user (Windows Terminal tabs, shells, editors) the type
/// label is shown first in brackets and the title after it, as in
/// `[Windows Terminal]  my-project`; other titles are split into document,
/// application and user tag, as in `readme.txt - Notepad`.
pub fn format_entry(win: &WindowInfo, cfg: &Config) -> (r: String)
    ensures
        exists|stem: Seq<char>|
            {
                let class_lc = unicode_lowercase(win.class_name@);
                &&& #[trigger] stem_outcome(win.process_name@, stem)
                &&& rendered(
                    entry_layout(
                        win.title@,
                        unreliable_of(class_lc, stem),
                        label_of(class_lc, stem),
                        *cfg,
                    ),
                    r@,
                )
            },
{
    let class_lc = to_lowercase(win.class_name.as_str());
    let stem = exe_stem(win.process_name.as_str());
    let unreliable = unreliable_for(class_lc.as_str(), stem.as_str());
    let label = label_for(class_lc.as_str(), stem.as_str());
    let pieces = entry_pieces(win.title.as_str(), unreliable, label.as_str(), cfg);
    render(&pieces)
}


/// The texts of the pieces, one after the other.
pub open spec fn piece_texts(pieces: Seq<(Seq<char>, Option<Seq<char>>)>) -> Seq<char> {
    joined(pieces.map_values(|p: (Seq<char>, Option<Seq<char>>)| p.0))
}

/// Splitting a title into document, separator, application and user tag
/// loses no character: the texts of the pieces, one after the other, give
/// the title back.
pub proof fn lemma_entry_keeps_title(title: Seq<char>, label: Seq<char>, cfg: Config)
    ensures
        piece_texts(entry_layout(title, false, label, cfg)) == title,
{
    reveal_with_fuel(joined, 6);
    lemma_last_occurrence_bounds(title, dash_separator());
    match last_occurrence(title, dash_separator()) {
        Some(pos) => {
            let app = title.skip(pos + 3);
            let front = seq![
                (title.take(pos), Some(cfg.doc_color@)),
                (dash_separator(), Some(cfg.index_color@)),
            ];
            lemma_last_occurrence_bounds(app, tag_opening());
            let pieces = front + app_layout(app, cfg);
            let texts = pieces.map_values(|p: (Seq<char>, Option<Seq<char>>)| p.0);
            if app.len() > 0 && app.last() == ')' {
                match last_occurrence(app, tag_opening()) {
                    Some(t) => {
                        assert(app[t] == ' ');
                        assert(texts =~= seq![
                            title.take(pos),
                            dash_separator(),
                            app.take(t),
                            seq![' '],
                            app.skip(t + 1),
                        ]);
                        assert(title.take(pos) + dash_separator() + app.take(t) + seq![' '] + app.skip(t + 1)
                            =~= title);
                    },
                    None => {
                        assert(texts =~= seq![title.take(pos), dash_separator(), app]);
                        assert(title.take(pos) + dash_separator() + app =~= title);
                    },
                }
            } else {
                assert(texts =~= seq![title.take(pos), dash_separator(), app]);
                assert(title.take(pos) + dash_separator() + app =~= title);
            }
        },
        None => {
            let texts = entry_layout(title, false, label, cfg).map_values(
                |p: (Seq<char>, Option<Seq<char>>)| p.0,
            );
            assert(texts =~= seq![title]);
        },
    }
}


/// `s` right-aligned in a field of `width` characters, padded with spaces
/// on the left; a longer `s` is kept whole.
pub open spec fn right_aligned(s: Seq<char>, width: nat) -> Seq<char> {
    if s.len() >= width {
        s
    } else {
        Seq::new((width - s.len()) as nat, |_i: int| ' ') + s
    }
}

/// The number of a list line as the list shows it: right-aligned in three
/// characters and followed by a dot, as `format!("{:>3}.", number)` writes it.
pub open spec fn index_label(number: nat) -> Seq<char> {
    right_aligned(decimal_digits(number), 3) + seq!['.']
}

/// The number of a list line as the list shows it, such as `"  7."`.
pub fn index_label_text(number: usize) -> (r: String)
    ensures
        r@ == index_label(number as nat),
{
    let digits = decimal_string(number);
    let len = digits.unicode_len();
    let mut r = String::new();
    let mut k: usize = len;
    proof {
        reveal_strlit(" ");
        reveal_strlit(".");
    }
    while k < 3
        invariant
            len == digits@.len(),
            len <= k <= 3 || (len > 3 && k == len),
            r@ == Seq::new((k - len) as nat, |_i: int| ' '),
        decreases 3 - k,
    {
        proof {
            reveal_strlit(" ");
        }
        r.append(" ");
        k = k + 1;
        assert(r@ =~= Seq::new((k - len) as nat, |_i: int| ' '));
    }
    r.append(digits.as_str());
    r.append(".");
    assert(r@ =~= index_label(number as nat));
    r
}

/// The pieces of line `number` of the window list: the number label in the
/// index colour, two spaces, then the entry.
pub open spec fn list_line_layout(
    number: nat,
    title: Seq<char>,
    unreliable: bool,
    label: Seq<char>,
    cfg: Config,
) -> Seq<(Seq<char>, Option<Seq<char>>)> {
    seq![(index_label(number), Some(cfg.index_color@)), (seq![' ', ' '], None)] + entry_layout(
        title,
        unreliable,
        label,
        cfg,
    )
}

/// Line `number` of the window list, for `win`.
pub fn list_line(number: usize, win: &WindowInfo, cfg: &Config) -> (r: String)
    ensures
        exists|stem: Seq<char>|
            {
                let class_lc = unicode_lowercase(win.class_name@);
                &&& #[trigger] stem_outcome(win.process_name@, stem)
                &&& rendered(
                    list_line_layout(
                        number as nat,
                        win.title@,
                        unreliable_of(class_lc, stem),
                        label_of(class_lc, stem),
                        *cfg,
                    ),
                    r@,
                )
            },
{
    let class_lc = to_lowercase(win.class_name.as_str());
    let stem = exe_stem(win.process_name.as_str());
    let unreliable = unreliable_for(class_lc.as_str(), stem.as_str());
    let label = label_for(class_lc.as_str(), stem.as_str());
    let entry = entry_pieces(win.title.as_str(), unreliable, label.as_str(), cfg);
    let mut pieces: Vec<Piece> = Vec::new();
    pieces.push(colored_piece(index_label_text(number), &cfg.index_color));
    proof {
        reveal_strlit("  ");
    }
    pieces.push(plain_piece("  "));
    assert("  "@ =~= seq![' ', ' ']);
    let mut i: usize = 0;
    while i < entry.len()
        invariant
            i <= entry@.len(),
            pieces@.map_values(|p: Piece| piece_view(p)) == seq![
                (index_label(number as nat), Some(cfg.index_color@)),
                (seq![' ', ' '], None),
            ] + entry@.take(i as int).map_values(|p: Piece| piece_view(p)),
        decreases entry@.len() - i,
    {
        let ghost before = pieces@.map_values(|p: Piece| piece_view(p));
        let ghost head = seq![
            (index_label(number as nat), Some(cfg.index_color@)),
            (seq![' ', ' '], None),
        ];
        let next = entry[i].clone_piece();
        pieces.push(next);
        proof {
            let x = piece_view(entry@[i as int]);
            assert(pieces@.map_values(|p: Piece| piece_view(p)) =~= before.push(x));
            let a = entry@.take(i as int).map_values(|p: Piece| piece_view(p));
            assert(entry@.take(i + 1).map_values(|p: Piece| piece_view(p)) =~= a.push(x));
            assert((head + a).push(x) =~= head + a.push(x));
        }
        i = i + 1;
    }
    assert(entry@.take(entry@.len() as int) =~= entry@);
    render(&pieces)
}

impl Piece {
    /// A copy of the piece.
    pub fn clone_piece(&self) -> (r: Piece)
        ensures
            piece_view(r) == piece_view(*self),
    {
        Piece {
            text: self.text.clone(),
            color: match &self.color {
                Some(c) => Some(c.clone()),
                None => None,
            },
        }
    }
}

/// The pieces of the header of a list of `count` windows found for `query`:
/// the count in the index colour and the query in the match colour, as in
/// `"\n3 windows match 'fire':\n"`.
pub open spec fn list_header_layout(count: nat, query: Seq<char>, cfg: Config) -> Seq<
    (Seq<char>, Option<Seq<char>>),
> {
    seq![
        (seq!['\n'], None),
        (decimal_digits(count), Some(cfg.index_color@)),
        (" windows match '"@, None),
        (query, Some(cfg.match_color@)),
        ("':\n"@, None),
    ]
}

/// The header of a list of `count` windows found for `query`.
pub fn list_header(count: usize, query: &str, cfg: &Config) -> (r: String)
    ensures
        rendered(list_header_layout(count as nat, query@, *cfg), r@),
{
    let mut pieces: Vec<Piece> = Vec::new();
    proof {
        reveal_strlit("\n");
    }
    pieces.push(plain_piece("\n"));
    assert("\n"@ =~= seq!['\n']);
    pieces.push(colored_piece(decimal_string(count), &cfg.index_color));
    pieces.push(plain_piece(" windows match '"));
    pieces.push(colored_piece(query.to_string(), &cfg.match_color));
    pieces.push(plain_piece("':\n"));
    assert(pieces@.map_values(|p: Piece| piece_view(p)) =~= list_header_layout(
        count as nat,
        query@,
        *cfg,
    ));
    render(&pieces)
}


/// The hint under the window list, in the index colour.
pub fn list_hint(cfg: &Config) -> (r: String)
    ensures
        colorize_outcome(
            "  [number] raise (quit)   [n]f focus (quit)   [n]c close (quit)   [text] new search   x quit"@,
            cfg.index_color@,
            r@,
        ),
{
    colorize(
        "  [number] raise (quit)   [n]f focus (quit)   [n]c close (quit)   [text] new search   x quit",
        cfg.index_color.as_str(),
    )
}

} // verus!
