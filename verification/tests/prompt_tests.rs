use showit::prompt::{is_quit_lowercase, pick_for_input, search_reply_for_input};
use showit::prompt::{
    launch_command, parse_pick, parse_search_reply, search_outcome, LaunchCommand, PickCommand,
    SearchOutcome, SearchReply,
};

#[test]
fn pick_blank_and_quit() {
    assert_eq!(parse_pick("", 3), PickCommand::Reprompt);
    assert_eq!(parse_pick("  \t\n", 3), PickCommand::Reprompt);
    assert_eq!(parse_pick("q\n", 3), PickCommand::Quit);
    assert_eq!(parse_pick(" EXIT ", 3), PickCommand::Quit);
    assert_eq!(parse_pick("Quit", 3), PickCommand::Quit);
    assert_eq!(parse_pick("X", 3), PickCommand::Quit);
}

#[test]
fn pick_numbers() {
    assert_eq!(parse_pick("2\n", 3), PickCommand::Raise(1));
    assert_eq!(parse_pick("2", 3), PickCommand::Raise(1));
    assert_eq!(parse_pick("+3", 3), PickCommand::Raise(2));
    assert_eq!(parse_pick("007", 9), PickCommand::Raise(6));
    assert_eq!(parse_pick("0", 3), PickCommand::OutOfRange);
    assert_eq!(parse_pick("4", 3), PickCommand::OutOfRange);
}

#[test]
fn pick_focus_and_close_suffixes() {
    assert_eq!(parse_pick("3f", 3), PickCommand::Focus(2));
    assert_eq!(parse_pick("1 F", 3), PickCommand::Focus(0));
    assert_eq!(parse_pick("2c", 3), PickCommand::Close(1));
    assert_eq!(parse_pick("2 C", 3), PickCommand::Close(1));
    assert_eq!(parse_pick("9c", 3), PickCommand::OutOfRange);
    assert_eq!(parse_pick("0f", 3), PickCommand::OutOfRange);
}

#[test]
fn pick_new_search() {
    assert_eq!(parse_pick(" notepad \n", 3), PickCommand::NewSearch("notepad".to_string()));
    assert_eq!(parse_pick("c", 3), PickCommand::NewSearch("c".to_string()));
    assert_eq!(parse_pick("abc", 3), PickCommand::NewSearch("abc".to_string()));
    assert_eq!(parse_pick("-1", 3), PickCommand::NewSearch("-1".to_string()));
    // Too large for usize: not a number, so a search.
    assert_eq!(
        parse_pick("99999999999999999999999", 3),
        PickCommand::NewSearch("99999999999999999999999".to_string())
    );
}

#[test]
fn search_replies() {
    assert_eq!(parse_search_reply("\n"), SearchReply::Retry);
    assert_eq!(parse_search_reply("q"), SearchReply::Quit);
    assert_eq!(parse_search_reply("  exit\r\n"), SearchReply::Quit);
    assert_eq!(parse_search_reply(" fire fox \n"), SearchReply::Search("fire fox".to_string()));
}

#[test]
fn search_outcomes() {
    assert_eq!(search_outcome(0), SearchOutcome::NoMatch);
    assert_eq!(search_outcome(1), SearchOutcome::Single);
    assert_eq!(search_outcome(5), SearchOutcome::Several);
}

fn args(v: &[&str]) -> Vec<String> {
    v.iter().map(|s| s.to_string()).collect()
}

#[test]
fn launch_commands() {
    assert_eq!(
        launch_command(&args(&["showit", "--__raise", "4242", "1"])),
        LaunchCommand::Raise { hwnd: 4242, focus: true }
    );
    assert_eq!(
        launch_command(&args(&["showit", "--__raise", "4242", "0"])),
        LaunchCommand::Raise { hwnd: 4242, focus: false }
    );
    assert_eq!(launch_command(&args(&["showit", "--__raise", "x", "1"])), LaunchCommand::MalformedRaise);
    assert_eq!(launch_command(&args(&["showit", "-V"])), LaunchCommand::PrintVersion);
    assert_eq!(launch_command(&args(&["showit", "--version"])), LaunchCommand::PrintVersion);
    assert_eq!(launch_command(&args(&["showit", "firefox"])), LaunchCommand::Run);
    assert_eq!(launch_command(&args(&["showit", "-V", "x"])), LaunchCommand::Run);
}

#[test]
fn decisions_from_lowercased_input() {
    assert_eq!(pick_for_input("Q", "q", 3), PickCommand::Quit);
    assert_eq!(pick_for_input("3f", "3f", 3), PickCommand::Focus(2));
    assert_eq!(pick_for_input("", "", 3), PickCommand::Reprompt);
    assert_eq!(search_reply_for_input("EXIT", "exit"), SearchReply::Quit);
    assert_eq!(search_reply_for_input("notes", "notes"), SearchReply::Search("notes".to_string()));
    assert!(is_quit_lowercase("quit"));
    assert!(!is_quit_lowercase("QUIT"));
}
