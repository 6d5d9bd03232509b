use showit::windows_api::{
    bring_to_front, close_window, enumerate_windows, exe_stem, label_for, unreliable_for,
    PlatformError, WindowInfo, WindowOperation,
};

fn window(process_name: &str, class_name: &str) -> WindowInfo {
    WindowInfo {
        hwnd: 7,
        title: "t".into(),
        process_name: process_name.into(),
        class_name: class_name.into(),
    }
}

#[test]
fn type_label_from_class_first() {
    assert_eq!(window("wt.exe", "CASCADIA_HOSTING_WINDOW_CLASS").type_label(), "Windows Terminal");
    // The class wins over the process name.
    assert_eq!(window("Code.exe", "Chrome_WidgetWin_1").type_label(), "Chrome");
    assert_eq!(window("", "MozillaWindowClass").type_label(), "Firefox");
}

#[test]
fn type_label_from_process() {
    assert_eq!(window("wt.exe", "").type_label(), "Windows Terminal");
    assert_eq!(window("PWSH.EXE", "x").type_label(), "PowerShell");
    assert_eq!(window("idea64.exe", "").type_label(), "IntelliJ IDEA");
    assert_eq!(window("nvim-qt.exe", "").type_label(), "Vim");
    assert_eq!(window("Code - Insiders.exe", "").type_label(), "VS Code Insiders");
}

#[test]
fn type_label_fallback_capitalises_stem() {
    assert_eq!(window("Taskmgr.exe", "TaskManagerWindow").type_label(), "Taskmgr");
    assert_eq!(window("foo.bar.exe", "").type_label(), "Foo.bar");
    assert_eq!(window("", "").type_label(), "");
    assert_eq!(window("\u{df}x.exe", "").type_label(), "SSx");
}

#[test]
fn unreliable_titles() {
    assert!(window("wt.exe", "").title_is_unreliable());
    assert!(window("x.exe", "Cascadia_Hosting_Window_Class").title_is_unreliable());
    assert!(window("pwsh.exe", "").title_is_unreliable());
    assert!(window("gvim.exe", "").title_is_unreliable());
    assert!(!window("notepad.exe", "Notepad").title_is_unreliable());
    assert!(!window("", "").title_is_unreliable());
}

#[test]
fn exe_stem_cases() {
    assert_eq!(exe_stem("wt.exe"), "wt");
    assert_eq!(exe_stem("Code.exe"), "code");
    assert_eq!(exe_stem(".bashrc"), ".bashrc");
    assert_eq!(exe_stem("a.tar.gz"), "a.tar");
    assert_eq!(exe_stem("NOEXT"), "noext");
    assert_eq!(exe_stem(""), "");
    assert_eq!(exe_stem("/usr/bin/Firefox.EXE"), "firefox");
    assert_eq!(exe_stem("tools/wt.exe"), "wt");
    assert_eq!(exe_stem("a//b/./Code.exe"), "code");
}

#[test]
fn label_from_slash_separated_path() {
    assert_eq!(window("/opt/apps/pwsh", "").type_label(), "PowerShell");
    assert!(window("/opt/apps/pwsh", "").title_is_unreliable());
}

#[test]
fn label_and_unreliable_from_parts() {
    assert_eq!(label_for("konsole_mainwindow", "konsole"), "Konsole");
    assert_eq!(label_for("", "rider"), "Rider");
    assert_eq!(label_for("", "zed"), "Zed");
    assert_eq!(label_for("", ""), "");
    assert!(unreliable_for("", "cmd"));
    assert!(!unreliable_for("", "code"));
}

#[test]
fn sample_listing() {
    let ws = enumerate_windows().unwrap();
    assert_eq!(ws.len(), 6);
    assert_eq!(ws[0].title, "Firefox \u{2014} GitHub");
    assert_eq!(ws[3].title, "ssh prod-server");
    assert_eq!(ws[5].process_name, "Taskmgr.exe");
    assert_eq!(ws[5].hwnd, 6);
}

#[test]
fn window_operations_unsupported() {
    let w = window("wt.exe", "");
    let e = bring_to_front(&w).unwrap_err();
    assert_eq!(e, PlatformError::Unsupported { operation: WindowOperation::BringToFront, hwnd: 7 });
    assert_eq!(e.message(), "bring_to_front is not supported on this platform (hwnd=7)");
    let e = close_window(&WindowInfo { hwnd: 1234567, ..w }).unwrap_err();
    assert_eq!(e.message(), "close_window is not supported on this platform (hwnd=1234567)");
}

#[test]
fn empty_label_exactly_when_nothing_known() {
    assert_eq!(window("", "unknownclass").type_label(), "");
    assert_eq!(window("", "Notepad++").type_label(), "Notepad++");
    assert_eq!(window("z.exe", "unknownclass").type_label(), "Z");
    assert_eq!(label_for("", "q"), "Q");
}
