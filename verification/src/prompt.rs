//! The decisions of the interactive session: what a line typed at the
//! selection or search prompt asks for, what a search result leads to, and
//! what the command line asks for before the session starts.
use vstd::prelude::*;
use crate::text::{
    all_digits, decimal_digits, is_digit, lemma_decimal_digits_value, lemma_digit_not_white_space,
    lemma_parse_decimal, lemma_trim_unchanged, parse_usize, parse_usize_spec, same_text,
    to_lowercase, trim, trim_white_space, unicode_lowercase,
};

verus! {

/// The words that end the session, in lowercase.
pub open spec fn is_quit_word(w: Seq<char>) -> bool {
    w == "x"@ || w == "q"@ || w == "exit"@ || w == "quit"@
}

/// Whether the lowercase word is one of the quit words.
pub fn is_quit_lowercase(w: &str) -> (r: bool)
    ensures
        r == is_quit_word(w@),
{
    same_text(w, "x") || same_text(w, "q") || same_text(w, "exit") || same_text(w, "quit")
}

/// `s` without a final `lower` or `upper` letter, if it ends with one.
pub open spec fn strip_letter(s: Seq<char>, lower: char, upper: char) -> Option<Seq<char>> {
    if s.len() > 0 && (s.last() == lower || s.last() == upper) {
        Some(s.drop_last())
    } else {
        None
    }
}

/// The number before a final `lower` or `upper` letter, surrounding
/// whitespace allowed, as in `"3c"` or `"3 F"`.
pub open spec fn number_before(s: Seq<char>, lower: char, upper: char) -> Option<usize> {
    match strip_letter(s, lower, upper) {
        Some(rest) => parse_usize_spec(trim(rest)),
        None => None,
    }
}

/// What a line typed at the selection prompt asks for.
pub enum PickPlan {
    /// Nothing was typed: ask again.
    Reprompt,
    /// End the session.
    Quit,
    /// Close the window at this position (from 0), then end the session.
    Close(int),
    /// Raise the window at this position (from 0) as chosen at launch
    /// (with or without the keyboard focus), then end the session.
    Raise(int),
    /// Raise the window at this position (from 0) and give it the keyboard
    /// focus, whatever was chosen at launch, then end the session.
    Focus(int),
    /// A number outside the list: report it and ask again.
    OutOfRange,
    /// Search again with this text.
    NewSearch(Seq<char>),
}

/// The plan for the (trimmed) `input` typed at the selection prompt of a
/// list of `count` windows, where `input_lc` is the input in lowercase.
/// Empty input asks again; `x`, `q`, `exit` and `quit` (in any case) quit;
/// `<n>c` closes window `n`; `<n>f` raises it with focus whatever the
/// launch-time choice; `<n>` raises it as chosen at launch; a number outside
/// `1..=count` is refused; any other text is a new search.
pub open spec fn plan_for_input(input: Seq<char>, input_lc: Seq<char>, count: usize) -> PickPlan {
    if input.len() == 0 {
        PickPlan::Reprompt
    } else if is_quit_word(input_lc) {
        PickPlan::Quit
    } else if number_before(input, 'c', 'C') is Some {
        let n = number_before(input, 'c', 'C').unwrap();
        if 1 <= n <= count {
            PickPlan::Close(n - 1)
        } else {
            PickPlan::OutOfRange
        }
    } else if number_before(input, 'f', 'F') is Some {
        let n = number_before(input, 'f', 'F').unwrap();
        if 1 <= n <= count {
            PickPlan::Focus(n - 1)
        } else {
            PickPlan::OutOfRange
        }
    } else if parse_usize_spec(input) is Some {
        let n = parse_usize_spec(input).unwrap();
        if 1 <= n <= count {
            PickPlan::Raise(n - 1)
        } else {
            PickPlan::OutOfRange
        }
    } else {
        PickPlan::NewSearch(input)
    }
}

/// The plan for `line` typed at the selection prompt of a list of `count`
/// windows: the line is trimmed and lowercased, then decided as above.
pub open spec fn pick_plan(line: Seq<char>, count: usize) -> PickPlan {
    plan_for_input(trim(line), unicode_lowercase(trim(line)), count)
}

/// What the session does with a line typed at the selection prompt.
#[derive(Debug, Clone, PartialEq, Eq)]
pub enum PickCommand {
    /// Nothing was typed: ask again.
    Reprompt,
    /// End the session.
    Quit,
    /// Close the window at this position (from 0), then end the session.
    Close(usize),
    /// Raise the window at this position (from 0) as chosen at launch, then
    /// end the session.
    Raise(usize),
    /// Raise the window at this position (from 0) with the keyboard focus,
    /// then end the session.
    Focus(usize),
    /// A number outside the list: report it and ask again.
    OutOfRange,
    /// Search again with this text.
    NewSearch(String),
}

impl View for PickCommand {
    type V = PickPlan;

    open spec fn view(&self) -> PickPlan {
        match self {
            PickCommand::Reprompt => PickPlan::Reprompt,
            PickCommand::Quit => PickPlan::Quit,
            PickCommand::Close(i) => PickPlan::Close(*i as int),
            PickCommand::Raise(i) => PickPlan::Raise(*i as int),
            PickCommand::Focus(i) => PickPlan::Focus(*i as int),
            PickCommand::OutOfRange => PickPlan::OutOfRange,
            PickCommand::NewSearch(s) => PickPlan::NewSearch(s@),
        }
    }
}

/// The number before a final `lower` or `upper` letter of `input`.
fn number_before_letter(input: &str, lower: char, upper: char) -> (r: Option<usize>)
    ensures
        r == number_before(input@, lower, upper),
{
    let n = input.unicode_len();
    if n == 0 {
        return None;
    }
    let last = input.get_char(n - 1);
    if last != lower && last != upper {
        return None;
    }
    let rest = input.substring_char(0, n - 1);
    assert(rest@ =~= input@.drop_last());
    parse_usize(trim_white_space(rest))
}

/// Decides what the (trimmed) `input` typed at the selection prompt asks
/// for, in a list of `count` windows, given `input_lc`, the input in
/// lowercase.
pub fn pick_for_input(input: &str, input_lc: &str, count: usize) -> (r: PickCommand)
    ensures
        r@ == plan_for_input(input@, input_lc@, count),
{
    if input.unicode_len() == 0 {
        return PickCommand::Reprompt;
    }
    if is_quit_lowercase(input_lc) {
        return PickCommand::Quit;
    }
    if let Some(n) = number_before_letter(input, 'c', 'C') {
        if 1 <= n && n <= count {
            return PickCommand::Close(n - 1);
        }
        return PickCommand::OutOfRange;
    }
    if let Some(n) = number_before_letter(input, 'f', 'F') {
        if 1 <= n && n <= count {
            return PickCommand::Focus(n - 1);
        }
        return PickCommand::OutOfRange;
    }
    if let Some(n) = parse_usize(input) {
        if 1 <= n && n <= count {
            return PickCommand::Raise(n - 1);
        }
        return PickCommand::OutOfRange;
    }
    PickCommand::NewSearch(input.to_string())
}

/// Decides what a line typed at the selection prompt asks for, in a list of
/// `count` windows.
pub fn parse_pick(line: &str, count: usize) -> (r: PickCommand)
    ensures
        r@ == pick_plan(line@, count),
{
    let input = trim_white_space(line);
    let lowered = to_lowercase(input);
    pick_for_input(input, lowered.as_str(), count)
}

/// What a line typed at the search prompt asks for.
#[derive(Debug, Clone, PartialEq, Eq)]
pub enum SearchReply {
    /// Nothing was typed: search again with the same query.
    Retry,
    /// End the session.
    Quit,
    /// Search with this text.
    Search(String),
}

/// The reply for the (trimmed) `input` typed at the search prompt, where
/// `input_lc` is the input in lowercase: empty retries, a quit word quits,
/// anything else is the new query.
pub open spec fn reply_for_input(input: Seq<char>, input_lc: Seq<char>, r: SearchReply) -> bool {
    if input.len() == 0 {
        r == SearchReply::Retry
    } else if is_quit_word(input_lc) {
        r == SearchReply::Quit
    } else {
        r matches SearchReply::Search(q) && q@ == input
    }
}

/// The reply for `line`: trimmed and lowercased, then decided as above.
pub open spec fn search_reply_ok(line: Seq<char>, r: SearchReply) -> bool {
    reply_for_input(trim(line), unicode_lowercase(trim(line)), r)
}

/// Decides what the (trimmed) `input` typed at the search prompt asks for,
/// given `input_lc`, the input in lowercase.
pub fn search_reply_for_input(input: &str, input_lc: &str) -> (r: SearchReply)
    ensures
        reply_for_input(input@, input_lc@, r),
{
    if input.unicode_len() == 0 {
        return SearchReply::Retry;
    }
    if is_quit_lowercase(input_lc) {
        return SearchReply::Quit;
    }
    SearchReply::Search(input.to_string())
}

/// Decides what a line typed at the search prompt asks for.
pub fn parse_search_reply(line: &str) -> (r: SearchReply)
    ensures
        search_reply_ok(line@, r),
{
    let input = trim_white_space(line);
    let lowered = to_lowercase(input);
    search_reply_for_input(input, lowered.as_str())
}

/// What a search that found `count` windows leads to.
#[derive(Debug, Clone, Copy, PartialEq, Eq, Structural)]
pub enum SearchOutcome {
    /// No window matched: report it and ask for a new search.
    NoMatch,
    /// One window matched: raise it and end the session.
    Single,
    /// Several matched: show the list and ask for a selection.
    Several,
}

/// The outcome of a search that found `count` windows.
pub fn search_outcome(count: usize) -> (r: SearchOutcome)
    ensures
        count == 0 <==> r == SearchOutcome::NoMatch,
        count == 1 <==> r == SearchOutcome::Single,
        count >= 2 <==> r == SearchOutcome::Several,
{
    if count == 0 {
        SearchOutcome::NoMatch
    } else if count == 1 {
        SearchOutcome::Single
    } else {
        SearchOutcome::Several
    }
}

/// What the command line asks for before the session starts.
#[derive(Debug, Clone, Copy, PartialEq, Eq, Structural)]
pub enum LaunchCommand {
    /// The internal `--__raise <hwnd> <focus>` entry: raise that window,
    /// focusing it when the last argument is `1`, and exit.
    Raise { hwnd: usize, focus: bool },
    /// The internal entry with a handle that is not a number: exit with failure.
    MalformedRaise,
    /// `-V` or `--version` alone: print the version and exit.
    PrintVersion,
    /// Anything else: parse the arguments and run the session.
    Run,
}

/// The launch command for the argument list `args` (program name first).
pub open spec fn launch_plan(args: Seq<Seq<char>>) -> LaunchCommand {
    if args.len() == 4 && args[1] == "--__raise"@ {
        match parse_usize_spec(args[2]) {
            Some(hwnd) => LaunchCommand::Raise { hwnd, focus: args[3] == "1"@ },
            None => LaunchCommand::MalformedRaise,
        }
    } else if args.len() == 2 && (args[1] == "-V"@ || args[1] == "--version"@) {
        LaunchCommand::PrintVersion
    } else {
        LaunchCommand::Run
    }
}

/// Decides what the command line asks for before the session starts.
pub fn launch_command(args: &Vec<String>) -> (r: LaunchCommand)
    ensures
        r == launch_plan(args@.map_values(|a: String| a@)),
{
    let ghost view = args@.map_values(|a: String| a@);
    if args.len() == 4 && same_text(args[1].as_str(), "--__raise") {
        assert(view[1] == args@[1]@ && view[2] == args@[2]@ && view[3] == args@[3]@);
        return match parse_usize(args[2].as_str()) {
            Some(hwnd) => LaunchCommand::Raise {
                hwnd,
                focus: same_text(args[3].as_str(), "1"),
            },
            None => LaunchCommand::MalformedRaise,
        };
    }
    if args.len() == 2 {
        assert(view[1] == args@[1]@);
        if same_text(args[1].as_str(), "-V") || same_text(args[1].as_str(), "--version") {
            return LaunchCommand::PrintVersion;
        }
    }
    proof {
        if args@.len() == 4 {
            assert(view[1] == args@[1]@);
        }
    }
    LaunchCommand::Run
}



/// A window number typed at the selection prompt never starts a new search
/// and is never taken for an empty line.
pub proof fn lemma_number_never_searches(line: Seq<char>, count: usize)
    requires
        parse_usize_spec(trim(line)) is Some,
    ensures
        !(pick_plan(line, count) is NewSearch),
        !(pick_plan(line, count) is Reprompt),
{
}

/// At the selection prompt, every window of the list is reached by its
/// number in all three ways: for every `n` in `1..=count`, `<n>c` (or
/// `<n>C`) closes window `n`, `<n>f` (or `<n>F`) raises it with the focus,
/// and `<n>` alone raises it; a quit word (in any case) ends the session
/// instead, and an empty line asks again.
pub proof fn lemma_number_reaches_window(
    input: Seq<char>,
    input_lc: Seq<char>,
    count: usize,
    n: usize,
)
    requires
        1 <= n <= count,
    ensures
        input.len() > 0 && is_quit_word(input_lc) ==> plan_for_input(input, input_lc, count)
            == PickPlan::Quit,
        input.len() > 0 && !is_quit_word(input_lc) && number_before(input, 'c', 'C') == Some(n)
            ==> plan_for_input(input, input_lc, count) == PickPlan::Close(n - 1),
        input.len() > 0 && !is_quit_word(input_lc) && number_before(input, 'f', 'F') == Some(n)
            ==> plan_for_input(input, input_lc, count) == PickPlan::Focus(n - 1),
        input.len() > 0 && !is_quit_word(input_lc) && parse_usize_spec(input) == Some(n)
            ==> plan_for_input(input, input_lc, count) == PickPlan::Raise(n - 1),
{
    if parse_usize_spec(input) == Some(n) && input.len() > 0 {
        let body = if input[0] == '+' {
            input.drop_first()
        } else {
            input
        };
        assert(all_digits(body) && body.len() > 0);
        assert(is_digit(body[body.len() - 1]));
        assert(body[body.len() - 1] == input.last());
    }
}

/// The line of the window at position `n` (from 1) typed with a final
/// letter: its decimal number followed by that letter.
pub open spec fn numbered_line(n: usize, letter: char) -> Seq<char> {
    decimal_digits(n as nat).push(letter)
}

/// Typed at the selection prompt of a list of `count` windows, `<n>c` or
/// `<n>C` closes window `n` and `<n>f` or `<n>F` focuses it, for every `n`
/// from 1 to `count`, the last window included, and `<n>` raises it; only a
/// line whose lowercase is a quit word ends the session first.
pub proof fn lemma_typed_number_reaches_window(count: usize, n: usize, letter: char)
    requires
        1 <= n <= count,
    ensures
        (letter == 'c' || letter == 'C') ==> pick_plan(numbered_line(n, letter), count) == (if is_quit_word(
            unicode_lowercase(numbered_line(n, letter)),
        ) {
            PickPlan::Quit
        } else {
            PickPlan::Close(n - 1)
        }),
        (letter == 'f' || letter == 'F') ==> pick_plan(numbered_line(n, letter), count) == (if is_quit_word(
            unicode_lowercase(numbered_line(n, letter)),
        ) {
            PickPlan::Quit
        } else {
            PickPlan::Focus(n - 1)
        }),
        pick_plan(decimal_digits(n as nat), count) == (if is_quit_word(
            unicode_lowercase(decimal_digits(n as nat)),
        ) {
            PickPlan::Quit
        } else {
            PickPlan::Raise(n - 1)
        }),
{
    let digits = decimal_digits(n as nat);
    let line = numbered_line(n, letter);
    lemma_decimal_digits_value(n as nat);
    lemma_parse_decimal(n);
    assert(is_digit(digits[0]));
    assert(is_digit(digits[digits.len() - 1]));
    lemma_digit_not_white_space(digits[0]);
    lemma_digit_not_white_space(digits.last());
    lemma_trim_unchanged(digits);
    if letter == 'c' || letter == 'C' || letter == 'f' || letter == 'F' {
        assert(line[0] == digits[0]);
        assert(line.last() == letter);
        lemma_trim_unchanged(line);
        assert(line.drop_last() =~= digits);
    }
    lemma_number_reaches_window(line, unicode_lowercase(line), count, n);
    lemma_number_reaches_window(digits, unicode_lowercase(digits), count, n);
}

/// At the search prompt, a quit word (`x`, `q`, `exit` or `quit`, in any
/// case, surrounding whitespace allowed) ends the session, and a new search
/// never carries a quit word: the reply to a non-empty line is `Quit`
/// exactly when its trimmed lowercase is a quit word, and otherwise a
/// search for the trimmed line.
pub proof fn lemma_quit_words_end_search(line: Seq<char>, r: SearchReply)
    requires
        search_reply_ok(line, r),
        trim(line).len() > 0,
    ensures
        is_quit_word(unicode_lowercase(trim(line))) <==> r == SearchReply::Quit,
        !is_quit_word(unicode_lowercase(trim(line))) ==> (r matches SearchReply::Search(q) && q@
            == trim(line)),
{
    lemma_quit_reply(trim(line), unicode_lowercase(trim(line)), r);
}

/// For a non-empty input typed at the search prompt, the reply is `Quit`
/// exactly when its lowercase is a quit word; a `Search` reply carries the
/// input itself and never a quit word.
pub proof fn lemma_quit_reply(input: Seq<char>, input_lc: Seq<char>, r: SearchReply)
    requires
        reply_for_input(input, input_lc, r),
        input.len() > 0,
    ensures
        is_quit_word(input_lc) <==> r == SearchReply::Quit,
        r matches SearchReply::Search(q) ==> q@ == input && !is_quit_word(input_lc),
{
}

} // verus!
