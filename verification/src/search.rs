//! Matching a query against window titles and type labels.
use vstd::prelude::*;
use crate::text::{char_vec, contains_seq, contains_text, to_lowercase, unicode_lowercase};
use crate::windows_api::{is_type_label_outcome, WindowInfo};

verus! {

/// Strategy used to match a query against window titles.
#[derive(Debug, Clone, Copy, PartialEq, Eq, Structural)]
pub enum MatchMode {
    /// Plain substring match (case-insensitive).
    Substring,
    /// Shell-style wildcard: `*` matches any sequence of characters, `?` one character.
    Wildcard,
    /// Full regular-expression match (case-insensitive).
    Regex,
}

/// The mode that a raw query selects.
pub open spec fn mode_of(query: Seq<char>, force_regex: bool) -> MatchMode {
    if force_regex {
        MatchMode::Regex
    } else if query.contains('*') || query.contains('?') {
        MatchMode::Wildcard
    } else {
        MatchMode::Substring
    }
}

fn has_char(v: &Vec<char>, c: char) -> (r: bool)
    ensures
        r == v@.contains(c),
{
    let mut i: usize = 0;
    while i < v.len()
        invariant
            i <= v@.len(),
            forall|j: int| 0 <= j < i ==> v@[j] != c,
        decreases v@.len() - i,
    {
        if v[i] == c {
            return true;
        }
        i = i + 1;
    }
    false
}

/// Determines the match mode from the raw query string: regex when forced,
/// wildcard when the query holds `*` or `?`, substring otherwise.
pub fn detect_mode(query: &str, force_regex: bool) -> (r: MatchMode)
    ensures
        r == mode_of(query@, force_regex),
{
    if force_regex {
        return MatchMode::Regex;
    }
    let v = char_vec(query);
    if has_char(&v, '*') || has_char(&v, '?') {
        MatchMode::Wildcard
    } else {
        MatchMode::Substring
    }
}

/// The characters that have a meaning in regex syntax, as `regex::escape`
/// escapes them.
pub open spec fn is_regex_meta(c: char) -> bool {
    c == '\\' || c == '.' || c == '+' || c == '*' || c == '?' || c == '(' || c == ')' || c == '|'
        || c == '[' || c == ']' || c == '{' || c == '}' || c == '^' || c == '$' || c == '#' || c
        == '&' || c == '-' || c == '~'
}

/// `s` with a backslash before each meta character.
pub open spec fn regex_escaped(s: Seq<char>) -> Seq<char>
    decreases s.len(),
{
    if s.len() == 0 {
        s
    } else {
        regex_escaped(s.drop_last()) + if is_regex_meta(s.last()) {
            seq!['\\', s.last()]
        } else {
            seq![s.last()]
        }
    }
}

/// Calls `regex::escape`. Trusted, as the source of regex-syntax shows it:
/// each meta character gets a backslash before it, everything else is kept.
#[verifier::external_body]
fn regex_escape(text: &str) -> (r: String)
    ensures
        r@ == regex_escaped(text@),
{
    regex::escape(text)
}

/// The regex text for one character of a wildcard pattern.
pub open spec fn wildcard_piece(c: char) -> Seq<char> {
    if c == '*' {
        seq!['.', '*']
    } else if c == '?' {
        seq!['.']
    } else {
        regex_escaped(seq![c])
    }
}

/// The regex text for a wildcard pattern, character by character.
pub open spec fn wildcard_body(s: Seq<char>) -> Seq<char>
    decreases s.len(),
{
    if s.len() == 0 {
        s
    } else {
        wildcard_body(s.drop_last()) + wildcard_piece(s.last())
    }
}

/// The regex that a wildcard pattern stands for: case-insensitive and
/// anchored at both ends.
pub open spec fn wildcard_regex(pattern: Seq<char>) -> Seq<char> {
    seq!['(', '?', 'i', ')', '^'] + wildcard_body(pattern) + seq!['$']
}

/// Converts a shell wildcard pattern to an equivalent regex string.
pub fn wildcard_to_regex(pattern: &str) -> (r: String)
    ensures
        r@ == wildcard_regex(pattern@),
{
    let mut re = "(?i)^".to_string();
    proof {
        reveal_strlit("(?i)^");
        reveal_strlit(".*");
        reveal_strlit(".");
        reveal_strlit("$");
    }
    let n = pattern.unicode_len();
    let mut i: usize = 0;
    while i < n
        invariant
            n == pattern@.len(),
            i <= n,
            re@ == seq!['(', '?', 'i', ')', '^'] + wildcard_body(pattern@.take(i as int)),
        decreases n - i,
    {
        let c = pattern.get_char(i);
        let ghost before = re@;
        proof {
            reveal_strlit(".*");
            reveal_strlit(".");
        }
        if c == '*' {
            re.append(".*");
        } else if c == '?' {
            re.append(".");
        } else {
            let one = pattern.substring_char(i, i + 1);
            assert(one@ =~= seq![c]);
            let escaped = regex_escape(one);
            re.append(escaped.as_str());
        }
        assert(pattern@.take(i + 1).drop_last() =~= pattern@.take(i as int));
        assert(pattern@.take(i + 1).last() == c);
        assert(re@ =~= before + wildcard_piece(c));
        i = i + 1;
    }
    assert(pattern@.take(n as int) =~= pattern@);
    re.append("$");
    re
}

/// Declares `regex::Error` for use in signatures.
#[verifier::external_type_specification]
#[verifier::external_body]
pub struct ExRegexError(regex::Error);

/// Whether `regex::RegexBuilder` builds a regex from `pattern`, with
/// case-insensitive matching when `case_insensitive` holds.
pub uninterp spec fn regex_accepts(pattern: Seq<char>, case_insensitive: bool) -> bool;

/// Whether the regex built from `pattern` (case-insensitive when
/// `case_insensitive` holds) finds a match anywhere in `haystack`.
pub uninterp spec fn regex_finds(pattern: Seq<char>, case_insensitive: bool, haystack: Seq<char>) -> bool;

/// Calls `regex::RegexBuilder::build` on `pattern` with the given
/// case-insensitivity. Trusted: it succeeds exactly when `regex_accepts`
/// holds. The regex syntax itself is not stated.
#[verifier::external_body]
fn check_regex(pattern: &str, case_insensitive: bool) -> (r: Result<(), regex::Error>)
    ensures
        r.is_ok() == regex_accepts(pattern@, case_insensitive),
{
    match regex::RegexBuilder::new(pattern).case_insensitive(case_insensitive).build() {
        Ok(_) => Ok(()),
        Err(e) => Err(e),
    }
}

/// Builds the regex of `pattern` and calls `regex::Regex::is_match` on
/// `haystack`. Trusted: the result is `regex_finds` of the arguments. The
/// regex semantics itself is not stated.
#[verifier::external_body]
fn regex_is_match(pattern: &str, case_insensitive: bool, haystack: &str) -> (r: bool)
    requires
        regex_accepts(pattern@, case_insensitive),
    ensures
        r == regex_finds(pattern@, case_insensitive, haystack@),
{
    match regex::RegexBuilder::new(pattern).case_insensitive(case_insensitive).build() {
        Ok(re) => re.is_match(haystack),
        Err(_) => false,
    }
}

/// Returns `true` if `query` compiles as a regular expression.
pub fn is_valid_regex(query: &str) -> (r: bool)
    ensures
        r == regex_accepts(query@, false),
{
    check_regex(query, false).is_ok()
}

/// How a text is tested against a query.
pub enum TitleTest {
    /// The lowercase text contains this (lowercase) query.
    Lowercase(Seq<char>),
    /// The regex of this pattern, case-insensitive or not, finds a match.
    Pattern(Seq<char>, bool),
}

/// The test that a query in a mode stands for.
pub open spec fn title_test(query: Seq<char>, mode: MatchMode) -> TitleTest {
    match mode {
        MatchMode::Substring => TitleTest::Lowercase(unicode_lowercase(query)),
        MatchMode::Wildcard => TitleTest::Pattern(wildcard_regex(query), false),
        MatchMode::Regex => TitleTest::Pattern(query, true),
    }
}

/// The query is usable in the mode: a substring always is, a pattern when it compiles.
pub open spec fn test_compiles(t: TitleTest) -> bool {
    match t {
        TitleTest::Lowercase(_) => true,
        TitleTest::Pattern(p, ci) => regex_accepts(p, ci),
    }
}

/// `text` passes the test.
pub open spec fn passes(t: TitleTest, text: Seq<char>) -> bool {
    match t {
        TitleTest::Lowercase(q) => contains_seq(unicode_lowercase(text), q),
        TitleTest::Pattern(p, ci) => regex_finds(p, ci, text),
    }
}

/// A window with this title and type label matches when either passes.
pub open spec fn window_selected(t: TitleTest, title: Seq<char>, label: Seq<char>) -> bool {
    passes(t, title) || passes(t, label)
}

/// The windows that match, in their order, where `labels[i]` is the type
/// label of `windows[i]`.
pub open spec fn selected(windows: Seq<WindowInfo>, labels: Seq<Seq<char>>, t: TitleTest) -> Seq<
    WindowInfo,
>
    decreases windows.len(),
{
    if windows.len() == 0 || labels.len() == 0 {
        Seq::empty()
    } else {
        let rest = selected(windows.drop_last(), labels.drop_last(), t);
        if window_selected(t, windows.last().title@, labels.last()) {
            rest.push(windows.last())
        } else {
            rest
        }
    }
}

/// Failure of a search.
#[derive(Debug, Clone, PartialEq, Eq)]
pub enum SearchError {
    /// The pattern does not compile as a regular expression; the message
    /// says why.
    InvalidPattern(String),
}

/// Renders a `regex::Error` with its `Display` impl (`to_string`). Nothing
/// is stated of the message.
#[verifier::external_body]
fn regex_error_message(e: &regex::Error) -> String {
    e.to_string()
}

/// The exec form of a `TitleTest`.
enum Tester {
    Lowercase(String),
    Pattern(String, bool),
}

impl Tester {
    spec fn test(&self) -> TitleTest {
        match self {
            Tester::Lowercase(q) => TitleTest::Lowercase(q@),
            Tester::Pattern(p, ci) => TitleTest::Pattern(p@, *ci),
        }
    }

    fn passes(&self, text: &str) -> (r: bool)
        requires
            test_compiles(self.test()),
        ensures
            r == passes(self.test(), text@),
    {
        match self {
            Tester::Lowercase(q) => {
                let lower = to_lowercase(text);
                contains_text(lower.as_str(), q.as_str())
            },
            Tester::Pattern(p, ci) => regex_is_match(p.as_str(), *ci, text),
        }
    }
}

/// Whether the window's title or its type label passes the test; the label
/// used is returned beside the answer.
fn window_matches(w: &WindowInfo, tester: &Tester) -> (r: (bool, Ghost<Seq<char>>))
    requires
        test_compiles(tester.test()),
    ensures
        is_type_label_outcome(*w, r.1@),
        r.0 == window_selected(tester.test(), w.title@, r.1@),
{
    let label = w.type_label();
    let b = tester.passes(w.title.as_str()) || tester.passes(label.as_str());
    (b, Ghost(label@))
}

/// Filters `windows` by `query` in the given mode. Each window is searched
/// by its title and by its type label (the canonical name of its
/// application), so that a search for "terminal" finds a Windows Terminal
/// window whose tab title is "my-project".
pub fn filter_windows<'a>(windows: &'a [WindowInfo], query: &str, mode: &MatchMode) -> (r: Result<
    Vec<&'a WindowInfo>,
    SearchError,
>)
    ensures
        r is Ok <==> test_compiles(title_test(query@, *mode)),
        r matches Err(e) ==> e is InvalidPattern,
        r matches Ok(v) ==> exists|labels: Seq<Seq<char>>|
            {
                &&& labels.len() == windows@.len()
                &&& forall|i: int|
                    0 <= i < labels.len() ==> is_type_label_outcome(
                        #[trigger] windows@[i],
                        labels[i],
                    )
                &&& v@.map_values(|w: &WindowInfo| *w) == selected(
                    windows@,
                    labels,
                    title_test(query@, *mode),
                )
            },
{
    let tester = match mode {
        MatchMode::Substring => Tester::Lowercase(to_lowercase(query)),
        MatchMode::Wildcard => {
            let pattern = wildcard_to_regex(query);
            match check_regex(pattern.as_str(), false) {
                Ok(()) => Tester::Pattern(pattern, false),
                Err(e) => {
                    return Err(SearchError::InvalidPattern(regex_error_message(&e)));
                },
            }
        },
        MatchMode::Regex => match check_regex(query, true) {
            Ok(()) => Tester::Pattern(query.to_string(), true),
            Err(e) => {
                return Err(SearchError::InvalidPattern(regex_error_message(&e)));
            },
        },
    };
    assert(tester.test() == title_test(query@, *mode));
    let mut keep: Vec<bool> = Vec::new();
    let ghost mut labels: Seq<Seq<char>> = Seq::empty();
    let n = windows.len();
    let mut i: usize = 0;
    while i < n
        invariant
            n == windows@.len(),
            i <= n,
            test_compiles(tester.test()),
            labels.len() == i,
            keep@.len() == i,
            forall|j: int|
                0 <= j < i ==> is_type_label_outcome(#[trigger] windows@[j], labels[j]),
            forall|j: int|
                0 <= j < i ==> #[trigger] keep@[j] == window_selected(
                    tester.test(),
                    windows@[j].title@,
                    labels[j],
                ),
        decreases n - i,
    {
        let (b, Ghost(label)) = window_matches(&windows[i], &tester);
        keep.push(b);
        proof {
            labels = labels.push(label);
        }
        i = i + 1;
    }
    let out = select_windows(windows, &keep);
    proof {
        lemma_selected_is_chosen(windows@, labels, keep@, tester.test());
    }
    Ok(out)
}

/// The windows at the positions where `keep` holds `true`, in their order.
pub open spec fn chosen(windows: Seq<WindowInfo>, keep: Seq<bool>) -> Seq<WindowInfo>
    decreases windows.len(),
{
    if windows.len() == 0 {
        Seq::empty()
    } else {
        let rest = chosen(windows.drop_last(), keep);
        if windows.len() - 1 < keep.len() && keep[windows.len() - 1] {
            rest.push(windows.last())
        } else {
            rest
        }
    }
}

/// Choosing by the per-window test results gives the selection.
pub proof fn lemma_selected_is_chosen(
    windows: Seq<WindowInfo>,
    labels: Seq<Seq<char>>,
    keep: Seq<bool>,
    t: TitleTest,
)
    requires
        labels.len() == windows.len(),
        keep.len() >= windows.len(),
        forall|j: int|
            0 <= j < windows.len() ==> #[trigger] keep[j] == window_selected(
                t,
                windows[j].title@,
                labels[j],
            ),
    ensures
        chosen(windows, keep) == selected(windows, labels, t),
    decreases windows.len(),
{
    if windows.len() > 0 {
        let ws = windows.drop_last();
        let ls = labels.drop_last();
        assert forall|j: int| 0 <= j < ws.len() implies #[trigger] keep[j] == window_selected(
            t,
            ws[j].title@,
            ls[j],
        ) by {
            assert(keep[j] == window_selected(t, windows[j].title@, labels[j]));
        }
        lemma_selected_is_chosen(ws, ls, keep, t);
        assert(keep[windows.len() - 1] == window_selected(
            t,
            windows[windows.len() - 1].title@,
            labels[windows.len() - 1],
        ));
    }
}

/// The windows at the positions where `keep` holds `true`, in their order;
/// positions past the end of `keep` are left out.
pub fn select_windows<'a>(windows: &'a [WindowInfo], keep: &Vec<bool>) -> (r: Vec<&'a WindowInfo>)
    ensures
        r@.map_values(|w: &WindowInfo| *w) == chosen(windows@, keep@),
{
    let mut out: Vec<&'a WindowInfo> = Vec::new();
    let n = windows.len();
    let mut i: usize = 0;
    while i < n
        invariant
            n == windows@.len(),
            i <= n,
            out@.map_values(|w: &WindowInfo| *w) == chosen(windows@.take(i as int), keep@),
        decreases n - i,
    {
        if i < keep.len() && keep[i] {
            out.push(&windows[i]);
        }
        proof {
            let ws = windows@.take(i + 1);
            assert(ws.drop_last() =~= windows@.take(i as int));
            assert(out@.map_values(|w: &WindowInfo| *w) =~= chosen(ws, keep@));
        }
        i = i + 1;
    }
    assert(windows@.take(n as int) =~= windows@);
    out
}


/// A search returns only windows that it was given, in their order, and
/// never more than it was given.
pub proof fn lemma_selected_from_given(windows: Seq<WindowInfo>, labels: Seq<Seq<char>>, t: TitleTest)
    ensures
        selected(windows, labels, t).len() <= windows.len(),
        forall|k: int|
            0 <= k < selected(windows, labels, t).len() ==> windows.contains(
                #[trigger] selected(windows, labels, t)[k],
            ),
    decreases windows.len(),
{
    if windows.len() > 0 && labels.len() > 0 {
        let rest = selected(windows.drop_last(), labels.drop_last(), t);
        lemma_selected_from_given(windows.drop_last(), labels.drop_last(), t);
        assert forall|k: int| 0 <= k < rest.len() implies windows.contains(#[trigger] rest[k]) by {
            let j = choose|j: int| 0 <= j < windows.drop_last().len() && windows.drop_last()[j] == rest[k];
            assert(windows[j] == rest[k]);
        }
        assert(windows[windows.len() - 1] == windows.last());
    }
}

/// Every window whose title or type label passes the test is returned.
pub proof fn lemma_match_is_selected(
    windows: Seq<WindowInfo>,
    labels: Seq<Seq<char>>,
    t: TitleTest,
    i: int,
)
    requires
        labels.len() == windows.len(),
        0 <= i < windows.len(),
        window_selected(t, windows[i].title@, labels[i]),
    ensures
        selected(windows, labels, t).contains(windows[i]),
    decreases windows.len(),
{
    let rest = selected(windows.drop_last(), labels.drop_last(), t);
    if i == windows.len() - 1 {
        let s = selected(windows, labels, t);
        assert(s == rest.push(windows.last()));
        assert(s[s.len() - 1] == windows[i]);
    } else {
        assert(windows.drop_last()[i] == windows[i]);
        assert(labels.drop_last()[i] == labels[i]);
        lemma_match_is_selected(windows.drop_last(), labels.drop_last(), t, i);
        let j = choose|j: int| 0 <= j < rest.len() && rest[j] == windows[i];
        if window_selected(t, windows.last().title@, labels.last()) {
            assert(rest.push(windows.last())[j] == windows[i]);
        }
    }
}

/// A substring search ignores case: two queries with the same lowercase
/// select the same windows.
pub proof fn lemma_substring_ignores_case(
    q1: Seq<char>,
    q2: Seq<char>,
    windows: Seq<WindowInfo>,
    labels: Seq<Seq<char>>,
)
    requires
        unicode_lowercase(q1) == unicode_lowercase(q2),
    ensures
        selected(windows, labels, title_test(q1, MatchMode::Substring)) == selected(
            windows,
            labels,
            title_test(q2, MatchMode::Substring),
        ),
{
}

/// In every mode (substring, wildcard or regex), a window is found by its
/// title and by its type label alike: when the query's test passes on
/// either, the window is in the selection.
pub proof fn lemma_title_or_label_selects(
    windows: Seq<WindowInfo>,
    labels: Seq<Seq<char>>,
    query: Seq<char>,
    mode: MatchMode,
    i: int,
)
    requires
        labels.len() == windows.len(),
        0 <= i < windows.len(),
        passes(title_test(query, mode), windows[i].title@) || passes(
            title_test(query, mode),
            labels[i],
        ),
    ensures
        selected(windows, labels, title_test(query, mode)).contains(windows[i]),
{
    lemma_match_is_selected(windows, labels, title_test(query, mode), i);
}

/// `w` is one of `windows` whose title or type label passes the test.
pub open spec fn given_and_passing(
    windows: Seq<WindowInfo>,
    labels: Seq<Seq<char>>,
    t: TitleTest,
    w: WindowInfo,
) -> bool {
    exists|i: int|
        0 <= i < windows.len() && #[trigger] windows[i] == w && (passes(t, windows[i].title@)
            || passes(t, labels[i]))
}

/// Every window in the selection was given, and its title or its type
/// label passes the test.
pub proof fn lemma_selected_pass(windows: Seq<WindowInfo>, labels: Seq<Seq<char>>, t: TitleTest)
    requires
        labels.len() == windows.len(),
    ensures
        forall|k: int|
            0 <= k < selected(windows, labels, t).len() ==> given_and_passing(
                windows,
                labels,
                t,
                #[trigger] selected(windows, labels, t)[k],
            ),
    decreases windows.len(),
{
    if windows.len() > 0 {
        let ws = windows.drop_last();
        let ls = labels.drop_last();
        let rest = selected(ws, ls, t);
        lemma_selected_pass(ws, ls, t);
        let s = selected(windows, labels, t);
        let last = windows.len() - 1;
        assert forall|k: int| 0 <= k < s.len() implies given_and_passing(
            windows,
            labels,
            t,
            #[trigger] s[k],
        ) by {
            if k < rest.len() {
                assert(s[k] == rest[k]);
                assert(given_and_passing(ws, ls, t, rest[k]));
                let i = choose|i: int|
                    0 <= i < ws.len() && #[trigger] ws[i] == rest[k] && (passes(t, ws[i].title@)
                        || passes(t, ls[i]));
                assert(windows[i] == ws[i] && labels[i] == ls[i]);
            } else {
                assert(s[k] == windows[last]);
                assert(labels[last] == labels.last());
            }
        }
    }
}

} // verus!
