use showit::listing::{list_header, list_hint, list_line};
use showit::listing::index_label_text;
use showit::config::Config;
use showit::listing::{entry_pieces, format_entry, render, Piece};
use showit::windows_api::WindowInfo;

fn window(title: &str, process_name: &str, class_name: &str) -> WindowInfo {
    WindowInfo { hwnd: 1, title: title.into(), process_name: process_name.into(), class_name: class_name.into() }
}

fn texts(pieces: &[Piece]) -> Vec<(String, Option<String>)> {
    pieces.iter().map(|p| (p.text.clone(), p.color.clone())).collect()
}

fn piece(t: &str, c: Option<&str>) -> (String, Option<String>) {
    (t.to_string(), c.map(|c| c.to_string()))
}

#[test]
fn entry_for_user_titled_window() {
    let cfg = Config::default();
    let p = entry_pieces("my-project", true, "Windows Terminal", &cfg);
    assert_eq!(
        texts(&p),
        vec![
            piece("[Windows Terminal]", Some("#FFFF00")),
            piece("  ", None),
            piece("my-project", Some("#888888")),
        ]
    );
}

#[test]
fn entry_split_on_last_dash() {
    let cfg = Config::default();
    let p = entry_pieces("a - b - Notepad", false, "", &cfg);
    assert_eq!(
        texts(&p),
        vec![piece("a - b", Some("#00FFFF")), piece(" - ", Some("#888888")), piece("Notepad", Some("#FFFF00"))]
    );
}

#[test]
fn entry_with_user_tag() {
    let cfg = Config::default();
    let p = entry_pieces("readme.txt - Notepad (ADMIN)", false, "", &cfg);
    assert_eq!(
        texts(&p),
        vec![
            piece("readme.txt", Some("#00FFFF")),
            piece(" - ", Some("#888888")),
            piece("Notepad", Some("#FFFF00")),
            piece(" ", None),
            piece("(ADMIN)", Some("#AA55FF")),
        ]
    );
    let p = entry_pieces("x - (ADMIN)", false, "", &cfg);
    assert_eq!(texts(&p)[2], piece("(ADMIN)", Some("#AA55FF")));
    assert_eq!(p.len(), 3);
}

#[test]
fn entry_without_dash() {
    let cfg = Config::default();
    let p = entry_pieces("Task Manager", false, "", &cfg);
    assert_eq!(texts(&p), vec![piece("Task Manager", Some("#00FFFF"))]);
}

#[test]
fn uncoloured_entries() {
    colored::control::set_override(false);
    let cfg = Config::default();
    assert_eq!(
        format_entry(&window("my-project", "wt.exe", "CASCADIA_HOSTING_WINDOW_CLASS"), &cfg),
        "[Windows Terminal]  my-project"
    );
    assert_eq!(
        format_entry(&window("readme.txt - Notepad (John)", "notepad.exe", "Notepad"), &cfg),
        "readme.txt - Notepad (John)"
    );
    let pieces = vec![
        Piece { text: "a".to_string(), color: None },
        Piece { text: "b".to_string(), color: Some("bad".to_string()) },
    ];
    assert_eq!(render(&pieces), "ab");
}

#[test]
fn index_labels_right_aligned() {
    assert_eq!(index_label_text(1), "  1.");
    assert_eq!(index_label_text(42), " 42.");
    assert_eq!(index_label_text(1234), "1234.");
    assert_eq!(index_label_text(7), format!("{:>3}.", 7));
}

#[test]
fn uncoloured_list_lines() {
    colored::control::set_override(false);
    let cfg = Config::default();
    let w = window("my-project", "wt.exe", "CASCADIA_HOSTING_WINDOW_CLASS");
    assert_eq!(list_line(3, &w, &cfg), "  3.  [Windows Terminal]  my-project");
    assert_eq!(list_header(2, "fire", &cfg), "\n2 windows match 'fire':\n");
    assert!(list_hint(&cfg).contains("[n]c close (quit)"));
}
