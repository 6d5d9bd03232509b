use showit::windows_api::{
    detach_plan, exe_stem, is_candidate, is_listed, needs_fallback, plan_raise,
    process_base_name, RaiseFacts, RaisePlan, ShowCommand,
};

fn facts(focus: bool, was_iconic: bool, was_maximized: bool, fg_tid: u32, target_tid: u32) -> RaiseFacts {
    RaiseFacts { focus, was_iconic, was_maximized, our_tid: 10, fg_tid, target_tid }
}

#[test]
fn raise_without_focus_only_raises() {
    let p = plan_raise(&facts(false, false, false, 20, 30));
    assert_eq!(
        p,
        RaisePlan {
            attach_fg: false,
            attach_target: false,
            show: ShowCommand::Nothing,
            activate: false,
            restore_placement: false,
        }
    );
    let p = plan_raise(&facts(false, true, false, 20, 30));
    assert_eq!(p.show, ShowCommand::ShowNoActivate);
    assert!(!p.activate);
    assert!(!p.attach_fg && !p.attach_target && !p.restore_placement);
}

#[test]
fn raise_with_focus_attaches_and_activates() {
    let p = plan_raise(&facts(true, false, false, 20, 30));
    assert_eq!(
        p,
        RaisePlan {
            attach_fg: true,
            attach_target: true,
            show: ShowCommand::Show,
            activate: true,
            restore_placement: true,
        }
    );
}

#[test]
fn raise_minimised_window_restores_without_placement() {
    let p = plan_raise(&facts(true, true, false, 20, 30));
    assert_eq!(p.show, ShowCommand::Restore);
    assert!(!p.restore_placement);
    assert!(p.activate);
}

#[test]
fn raise_maximised_window_keeps_its_size() {
    let p = plan_raise(&facts(true, false, true, 20, 30));
    assert_eq!(p.show, ShowCommand::Show);
    assert!(!p.restore_placement);
}

#[test]
fn raise_attaches_only_foreign_known_threads() {
    // Unknown foreground thread, window on showit's own thread.
    let p = plan_raise(&facts(true, false, false, 0, 10));
    assert!(!p.attach_fg);
    assert!(!p.attach_target);
    // Foreground thread is showit's own; the window's thread is the foreground's.
    let p = plan_raise(&facts(true, false, false, 10, 10));
    assert!(!p.attach_fg && !p.attach_target);
    // The window belongs to the foreground thread: attach once.
    let p = plan_raise(&facts(true, false, false, 20, 20));
    assert!(p.attach_fg);
    assert!(!p.attach_target);
    // Unknown window thread.
    let p = plan_raise(&facts(true, false, false, 20, 0));
    assert!(p.attach_fg && !p.attach_target);
}

#[test]
fn fallback_unless_activation_landed() {
    assert!(!needs_fallback(true, true));
    assert!(needs_fallback(true, false));
    assert!(needs_fallback(false, true));
    assert!(needs_fallback(false, false));
}

#[test]
fn every_attach_is_undone() {
    assert_eq!(detach_plan(true, true), (true, true));
    assert_eq!(detach_plan(true, false), (true, false));
    assert_eq!(detach_plan(false, true), (false, true));
    assert_eq!(detach_plan(false, false), (false, false));
}

#[test]
fn listed_windows_are_visible_foreign_and_titled() {
    assert!(is_candidate(true, false));
    assert!(!is_candidate(false, false));
    assert!(!is_candidate(true, true));
    assert!(is_listed(true, false, "Notepad"));
    assert!(!is_listed(true, false, ""));
    assert!(!is_listed(false, false, "Notepad"));
    assert!(!is_listed(true, true, "Notepad"));
}

#[test]
fn base_name_of_image_paths() {
    assert_eq!(process_base_name("/usr/bin/wt.exe"), "wt.exe");
    assert_eq!(process_base_name("wt.exe"), "wt.exe");
    assert_eq!(process_base_name("a//b/./Code.exe"), "Code.exe");
    assert_eq!(process_base_name(""), "");
    assert_eq!(process_base_name("/"), "");
    let r = process_base_name("C:\\Windows\\System32\\cmd.exe");
    assert!(r == "cmd.exe" || r == "C:\\Windows\\System32\\cmd.exe");
}

#[test]
fn stem_of_windows_path_is_one_of_its_readings() {
    let r = exe_stem("C:\\x\\CMD.exe");
    assert!(r == "cmd" || r == "c:\\x\\cmd");
    assert_ne!(r, "");
}
