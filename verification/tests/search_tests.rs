use showit::search::select_windows;
use showit::search::{
    detect_mode, filter_windows, is_valid_regex, wildcard_to_regex, MatchMode, SearchError,
};
use showit::windows_api::WindowInfo;

fn make_windows() -> Vec<WindowInfo> {
    vec![
        WindowInfo {
            hwnd: 1,
            title: "Firefox \u{2014} GitHub".into(),
            process_name: "firefox.exe".into(),
            class_name: "MozillaWindowClass".into(),
        },
        WindowInfo {
            hwnd: 2,
            title: "Visual Studio Code".into(),
            process_name: "Code.exe".into(),
            class_name: "Chrome_WidgetWin_1".into(),
        },
        // wt tab with a custom title: the title does not contain "terminal"
        WindowInfo {
            hwnd: 3,
            title: "my-project".into(),
            process_name: "wt.exe".into(),
            class_name: "CASCADIA_HOSTING_WINDOW_CLASS".into(),
        },
        WindowInfo {
            hwnd: 4,
            title: "ssh prod".into(),
            process_name: "wt.exe".into(),
            class_name: "CASCADIA_HOSTING_WINDOW_CLASS".into(),
        },
        WindowInfo {
            hwnd: 5,
            title: "Notepad \u{2014} readme.txt".into(),
            process_name: "notepad.exe".into(),
            class_name: "Notepad".into(),
        },
    ]
}

#[test]
fn substring_match_title() {
    let ws = make_windows();
    let r = filter_windows(&ws, "readme", &MatchMode::Substring).unwrap();
    assert_eq!(r.len(), 1);
    assert_eq!(r[0].title, "Notepad \u{2014} readme.txt");
}

/// "terminal" hits both wt windows through their type label, though neither
/// title holds the word.
#[test]
fn substring_match_type_label() {
    let ws = make_windows();
    let r = filter_windows(&ws, "terminal", &MatchMode::Substring).unwrap();
    assert_eq!(r.len(), 2, "both wt windows should match 'terminal'");
    assert!(r.iter().all(|w| w.process_name == "wt.exe"));
}

#[test]
fn substring_match_wt_label() {
    let ws = make_windows();
    let r = filter_windows(&ws, "windows terminal", &MatchMode::Substring).unwrap();
    assert_eq!(r.len(), 2);
}

#[test]
fn wildcard_star() {
    let ws = make_windows();
    let r = filter_windows(&ws, "*studio*", &MatchMode::Wildcard).unwrap();
    assert_eq!(r.len(), 1);
}

#[test]
fn regex_match() {
    let ws = make_windows();
    let r = filter_windows(&ws, r"fire|note", &MatchMode::Regex).unwrap();
    assert_eq!(r.len(), 2);
}

#[test]
fn regex_match_type_label() {
    let ws = make_windows();
    let r = filter_windows(&ws, "terminal", &MatchMode::Regex).unwrap();
    assert_eq!(r.len(), 2);
}

#[test]
fn detect_wildcard() {
    assert_eq!(detect_mode("*foo*", false), MatchMode::Wildcard);
}

#[test]
fn detect_substring() {
    assert_eq!(detect_mode("firefox", false), MatchMode::Substring);
}

#[test]
fn detect_forced_regex() {
    assert_eq!(detect_mode("firefox", true), MatchMode::Regex);
}

#[test]
fn detect_question_mark_is_wildcard() {
    assert_eq!(detect_mode("note?ad", false), MatchMode::Wildcard);
    assert_eq!(detect_mode("*", true), MatchMode::Regex);
    assert_eq!(detect_mode("", false), MatchMode::Substring);
}

#[test]
fn substring_is_case_insensitive() {
    let ws = make_windows();
    let a = filter_windows(&ws, "README", &MatchMode::Substring).unwrap();
    let b = filter_windows(&ws, "readme", &MatchMode::Substring).unwrap();
    assert_eq!(a.len(), 1);
    assert_eq!(a[0].hwnd, b[0].hwnd);
}

#[test]
fn results_keep_window_order() {
    let ws = make_windows();
    let r = filter_windows(&ws, "", &MatchMode::Substring).unwrap();
    let ids: Vec<usize> = r.iter().map(|w| w.hwnd).collect();
    assert_eq!(ids, vec![1, 2, 3, 4, 5]);
    let r = filter_windows(&ws, "o", &MatchMode::Substring).unwrap();
    let ids: Vec<usize> = r.iter().map(|w| w.hwnd).collect();
    assert_eq!(ids, vec![1, 2, 3, 4, 5]);
}

#[test]
fn wildcard_question_mark_and_anchors() {
    let ws = make_windows();
    // Anchored: "studio*" does not match "Visual Studio Code".
    assert_eq!(filter_windows(&ws, "studio*", &MatchMode::Wildcard).unwrap().len(), 0);
    let r = filter_windows(&ws, "ssh pro?", &MatchMode::Wildcard).unwrap();
    assert_eq!(r.len(), 1);
    assert_eq!(r[0].hwnd, 4);
    // Wildcard matching is case-insensitive and meta characters are literal.
    let r = filter_windows(&ws, "*README.TXT", &MatchMode::Wildcard).unwrap();
    assert_eq!(r.len(), 1);
    assert_eq!(filter_windows(&ws, "*readme?txt", &MatchMode::Wildcard).unwrap().len(), 1);
}

#[test]
fn wildcard_to_regex_escapes() {
    assert_eq!(wildcard_to_regex("a.b*c?"), "(?i)^a\\.b.*c.$");
    assert_eq!(wildcard_to_regex(""), "(?i)^$");
    assert_eq!(wildcard_to_regex("(x)-[y]"), "(?i)^\\(x\\)\\-\\[y\\]$");
}

#[test]
fn invalid_regex_is_refused() {
    let ws = make_windows();
    match filter_windows(&ws, "(", &MatchMode::Regex) {
        Err(SearchError::InvalidPattern(message)) => assert!(!message.is_empty()),
        Ok(_) => panic!("an unclosed group must be refused"),
    }
    assert!(!is_valid_regex("("));
    assert!(is_valid_regex("fire|note"));
    // A substring search never fails.
    assert!(filter_windows(&ws, "(", &MatchMode::Substring).unwrap().is_empty());
}

#[test]
fn selection_by_test_results() {
    let ws = make_windows();
    let r = select_windows(&ws, &vec![true, false, true, false, true]);
    let ids: Vec<usize> = r.iter().map(|w| w.hwnd).collect();
    assert_eq!(ids, vec![1, 3, 5]);
    // Positions past the end of the results are left out.
    let r = select_windows(&ws, &vec![false, true]);
    assert_eq!(r.len(), 1);
    assert_eq!(r[0].hwnd, 2);
}
