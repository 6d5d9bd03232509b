//! Window records and what the library derives from them: a type label for
//! the owning application, and whether the title alone identifies a window.
//! Without a desktop to ask, the listing reports a fixed set of sample
//! windows and raising or closing reports that it is not supported.
use vstd::prelude::*;
use crate::text::{
    char_to_uppercase, decimal_digits, decimal_string, last_occurrence, same_text, to_lowercase,
    unicode_lowercase, unicode_uppercase,
};

verus! {

/// A visible top-level window.
#[derive(Debug, Clone)]
pub struct WindowInfo {
    /// Opaque window handle.
    pub hwnd: usize,
    /// The window title.
    pub title: String,
    /// Executable name of the owning process, such as `"wt.exe"`; empty when unknown.
    pub process_name: String,
    /// Window class name, such as `"CASCADIA_HOSTING_WINDOW_CLASS"`; empty when unknown.
    pub class_name: String,
}

/// The part of `p` after its last `/`, or all of `p` when it has none.
pub open spec fn last_segment(p: Seq<char>) -> Seq<char> {
    match last_occurrence(p, seq!['/']) {
        Some(k) => p.skip(k + 1),
        None => p,
    }
}

/// A path whose file name every platform finds in the same place: it holds
/// no `\` and no `:` (so neither a Windows separator nor a drive or other
/// prefix), does not start with `//` (which Windows may read as a network
/// prefix), and its part after the last `/` is a name: not empty, `.` or
/// `..`. Its file name is that last part.
pub open spec fn has_portable_file_name(p: Seq<char>) -> bool {
    &&& !p.contains('\\')
    &&& !p.contains(':')
    &&& !(p.len() >= 2 && p[0] == '/' && p[1] == '/')
    &&& last_segment(p).len() > 0
    &&& last_segment(p) != seq!['.']
    &&& last_segment(p) != seq!['.', '.']
}

/// `s` is a file name: not empty, `.` or `..`.
pub open spec fn is_name(s: Seq<char>) -> bool {
    s.len() > 0 && s != seq!['.'] && s != seq!['.', '.']
}

/// A separator as Windows reads paths: `/` or `\`.
pub open spec fn is_windows_separator(c: char) -> bool {
    c == '/' || c == '\\'
}

/// The part of `p` after its last `/` or `\`, or all of `p` when it has none.
pub open spec fn windows_last_part(p: Seq<char>) -> Seq<char>
    decreases p.len(),
{
    if p.len() == 0 {
        p
    } else if is_windows_separator(p.last()) {
        Seq::empty()
    } else {
        windows_last_part(p.drop_last()).push(p.last())
    }
}

/// `p` starts with a drive prefix such as `C:`.
pub open spec fn has_drive_prefix(p: Seq<char>) -> bool {
    p.len() >= 2 && p[1] == ':' && (('a' <= p[0] && p[0] <= 'z') || ('A' <= p[0] && p[0] <= 'Z'))
}

/// `p` after its drive prefix, if it has one.
pub open spec fn after_drive(p: Seq<char>) -> Seq<char> {
    if has_drive_prefix(p) {
        p.skip(2)
    } else {
        p
    }
}

/// A path that Unix and Windows each read in a documented way: it does not
/// start with two separators (which Windows may read as a network or
/// verbatim prefix), it holds no `:` beyond a leading drive prefix, and both
/// its part after the last `/` (the Unix reading, where `\` is an ordinary
/// character) and its part after the drive and the last `/` or `\` (the
/// Windows reading) are names.
pub open spec fn has_two_readings(p: Seq<char>) -> bool {
    &&& !(p.len() >= 2 && is_windows_separator(p[0]) && is_windows_separator(p[1]))
    &&& !after_drive(p).contains(':')
    &&& is_name(last_segment(p))
    &&& is_name(windows_last_part(after_drive(p)))
}

/// The stem of a file name, as `Path::file_stem` documents it: the
/// name before its final `.`, or the whole name when it has no `.` after its
/// first character.
pub open spec fn file_stem_of(name: Seq<char>) -> Seq<char> {
    match last_occurrence(name, seq!['.']) {
        Some(k) => if k > 0 {
            name.take(k)
        } else {
            name
        },
        None => name,
    }
}

/// Calls `Path::file_stem` on `path` and converts the stem to a `String`.
/// Trusted, as the documentation of `Path` and `file_stem` shows it: `/`
/// separates components on every platform, repeated separators, a trailing
/// separator and `.` components are normalised away, and only Windows reads
/// `\` as a separator and drive or network prefixes. So on a path with a
/// portable file name the stem is `file_stem_of` its last part; on a path
/// with two readings it is the stem of the Unix reading or of the Windows
/// reading (which one depends on the platform); an empty path has none.
/// Paths with network or verbatim prefixes are not stated.
#[verifier::external_body]
fn path_file_stem(path: &str) -> (r: Option<String>)
    ensures
        has_portable_file_name(path@) ==> r.is_some() && r.unwrap()@ == file_stem_of(
            last_segment(path@),
        ),
        has_two_readings(path@) ==> r.is_some() && (r.unwrap()@ == file_stem_of(
            last_segment(path@),
        ) || r.unwrap()@ == file_stem_of(windows_last_part(after_drive(path@)))),
        path@.len() == 0 ==> r.is_none(),
{
    match std::path::Path::new(path).file_stem() {
        Some(stem) => match stem.to_str() {
            Some(s) => Some(s.to_string()),
            None => None,
        },
        None => None,
    }
}

/// Calls `Path::file_name` on `path` and converts the name to a `String`.
/// Trusted, as the documentation of `Path` and `file_name` shows it: on a
/// path with a portable file name it is the part after the last `/`; on a
/// path with two readings it is the Unix or the Windows reading (which one
/// depends on the platform); an empty path has none. Paths with network or
/// verbatim prefixes are not stated.
#[verifier::external_body]
fn path_file_name(path: &str) -> (r: Option<String>)
    ensures
        has_portable_file_name(path@) ==> r.is_some() && r.unwrap()@ == last_segment(path@),
        has_two_readings(path@) ==> r.is_some() && (r.unwrap()@ == last_segment(path@)
            || r.unwrap()@ == windows_last_part(after_drive(path@))),
        path@.len() == 0 ==> r.is_none(),
{
    match std::path::Path::new(path).file_name() {
        Some(name) => match name.to_str() {
            Some(s) => Some(s.to_string()),
            None => None,
        },
        None => None,
    }
}

/// What the base name of an executable image path can be: exactly its file
/// name where every platform agrees on it, the Unix or the Windows reading
/// where the path has two readings, and empty for an empty path.
pub open spec fn base_name_outcome(image_path: Seq<char>, name: Seq<char>) -> bool {
    &&& has_portable_file_name(image_path) ==> name == last_segment(image_path)
    &&& has_two_readings(image_path) ==> (name == last_segment(image_path) || name
        == windows_last_part(after_drive(image_path)))
    &&& image_path.len() == 0 ==> name.len() == 0
}

/// The executable name of a process from the full path of its image, such
/// as `"wt.exe"` from `C:\Program Files\WindowsApps\...\wt.exe`; empty where
/// the path has no file name.
pub fn process_base_name(image_path: &str) -> (r: String)
    ensures
        base_name_outcome(image_path@, r@),
{
    match path_file_name(image_path) {
        Some(name) => name,
        None => String::new(),
    }
}

/// A window that may be listed before its title is read: it is visible and
/// is not the console showit runs in.
pub fn is_candidate(visible: bool, own_console: bool) -> (r: bool)
    ensures
        r == (visible && !own_console),
{
    visible && !own_console
}

/// Whether a window is listed: it is visible, is not the console showit
/// runs in, and has a title.
pub fn is_listed(visible: bool, own_console: bool, title: &str) -> (r: bool)
    ensures
        r == (visible && !own_console && title@.len() > 0),
{
    is_candidate(visible, own_console) && title.unicode_len() > 0
}

/// How to show a window before raising it.
#[derive(Debug, Clone, Copy, PartialEq, Eq, Structural)]
pub enum ShowCommand {
    /// Leave it as it is.
    Nothing,
    /// Show it without activating it (restores a minimised window in place).
    ShowNoActivate,
    /// Show it, activating it.
    Show,
    /// Restore it from minimised, activating it.
    Restore,
}

/// What is known of a window and of the desktop before raising it.
#[derive(Debug, Clone, Copy, PartialEq, Eq, Structural)]
pub struct RaiseFacts {
    /// Whether to give the window the keyboard focus (`-f` or `<n>f`).
    pub focus: bool,
    /// The window is minimised.
    pub was_iconic: bool,
    /// The window is maximised.
    pub was_maximized: bool,
    /// The thread of showit itself.
    pub our_tid: u32,
    /// The thread of the foreground window (0 when unknown).
    pub fg_tid: u32,
    /// The thread of the window to raise (0 when unknown).
    pub target_tid: u32,
}

/// The steps of a raise.
#[derive(Debug, Clone, Copy, PartialEq, Eq, Structural)]
pub struct RaisePlan {
    /// Attach showit's input queue to the foreground thread.
    pub attach_fg: bool,
    /// Attach showit's input queue to the window's thread.
    pub attach_target: bool,
    /// How to show the window first.
    pub show: ShowCommand,
    /// Make the window the foreground window (take the focus).
    pub activate: bool,
    /// Put the saved placement back afterwards.
    pub restore_placement: bool,
}

/// Plans a raise. Without focus the window is only raised: it is shown
/// without activation if minimised and otherwise left as it is, and no input
/// queue is attached. With focus, showit attaches its input queue to the
/// foreground thread and to the window's thread (when they are known and
/// not its own, and not the same), restores a minimised window or shows any
/// other, activates it, and afterwards puts the saved placement back unless
/// the window was maximised or minimised.
pub fn plan_raise(f: &RaiseFacts) -> (p: RaisePlan)
    ensures
        p.activate == f.focus,
        p.attach_fg == (f.focus && f.fg_tid != 0 && f.fg_tid != f.our_tid),
        p.attach_target == (f.focus && f.target_tid != 0 && f.target_tid != f.our_tid
            && f.target_tid != f.fg_tid),
        p.show == (if !f.focus {
            if f.was_iconic {
                ShowCommand::ShowNoActivate
            } else {
                ShowCommand::Nothing
            }
        } else if f.was_iconic {
            ShowCommand::Restore
        } else {
            ShowCommand::Show
        }),
        p.restore_placement == (f.focus && !f.was_maximized && !f.was_iconic),
{
    let show = if !f.focus {
        if f.was_iconic {
            ShowCommand::ShowNoActivate
        } else {
            ShowCommand::Nothing
        }
    } else if f.was_iconic {
        ShowCommand::Restore
    } else {
        ShowCommand::Show
    };
    RaisePlan {
        attach_fg: f.focus && f.fg_tid != 0 && f.fg_tid != f.our_tid,
        attach_target: f.focus && f.target_tid != 0 && f.target_tid != f.our_tid && f.target_tid
            != f.fg_tid,
        show,
        activate: f.focus,
        restore_placement: f.focus && !f.was_maximized && !f.was_iconic,
    }
}

/// Whether the minimise-and-restore fallback is needed after activating: it
/// is unless `SetForegroundWindow` succeeded and the window is now the
/// foreground window.
pub fn needs_fallback(set_fg_ok: bool, foreground_is_target: bool) -> (r: bool)
    ensures
        r == !(set_fg_ok && foreground_is_target),
{
    !(set_fg_ok && foreground_is_target)
}

/// Which input queues to detach after a raise: every one that was attached,
/// on every path, whether the raise succeeded or not.
pub fn detach_plan(attached_fg: bool, attached_target: bool) -> (r: (bool, bool))
    ensures
        r == (attached_fg, attached_target),
{
    (attached_fg, attached_target)
}

/// Every platform agrees on the executable stem of this process name: it is
/// empty or has a portable file name.
pub open spec fn stem_is_fixed(process_name: Seq<char>) -> bool {
    process_name.len() == 0 || has_portable_file_name(process_name)
}

/// The lowercase executable stem of a process name on which every platform
/// agrees: empty for an empty name, else the lowercased stem of its file name.
pub open spec fn fixed_stem(process_name: Seq<char>) -> Seq<char> {
    if process_name.len() == 0 {
        Seq::empty()
    } else {
        unicode_lowercase(file_stem_of(last_segment(process_name)))
    }
}

/// What the lowercase executable stem of `process_name` can be: exactly the
/// fixed stem wherever every platform agrees on it, and the lowercased stem
/// of the Unix or of the Windows reading where the path has two readings.
pub open spec fn stem_outcome(process_name: Seq<char>, stem: Seq<char>) -> bool {
    &&& stem_is_fixed(process_name) ==> stem == fixed_stem(process_name)
    &&& has_two_readings(process_name) ==> (stem == unicode_lowercase(
        file_stem_of(last_segment(process_name)),
    ) || stem == unicode_lowercase(file_stem_of(windows_last_part(after_drive(process_name)))))
}

/// The lowercase stem of a process name: `"wt.exe"` gives `"wt"`.
pub fn exe_stem(process_name: &str) -> (r: String)
    ensures
        stem_outcome(process_name@, r@),
{
    match path_file_stem(process_name) {
        Some(stem) => to_lowercase(stem.as_str()),
        None => {
            proof {
                reveal_strlit("");
            }
            let r = to_lowercase("");
            assert(r@ =~= Seq::<char>::empty());
            r
        },
    }
}

/// The label of a known window class (given in lowercase).
pub open spec fn class_label(class_lc: Seq<char>) -> Option<Seq<char>> {
    if class_lc == "cascadia_hosting_window_class"@ {
        Some("Windows Terminal"@)
    } else if class_lc == "chrome_widgetwin_1"@ {
        Some("Chrome"@)
    } else if class_lc == "mozillawindowclass"@ {
        Some("Firefox"@)
    } else if class_lc == "operawindowclass"@ {
        Some("Opera"@)
    } else if class_lc == "bravebrowser"@ {
        Some("Brave"@)
    } else if class_lc == "vscode_main_window"@ {
        Some("VS Code"@)
    } else if class_lc == "notepad++"@ {
        Some("Notepad++"@)
    } else if class_lc == "konsole_mainwindow"@ {
        Some("Konsole"@)
    } else if class_lc == "gnome-terminal-window"@ {
        Some("GNOME Terminal"@)
    } else {
        None
    }
}

/// The label of a known executable stem (given in lowercase).
pub open spec fn process_label(stem: Seq<char>) -> Option<Seq<char>> {
    if stem == "wt"@ {
        Some("Windows Terminal"@)
    } else if stem == "windowsterminal"@ {
        Some("Windows Terminal"@)
    } else if stem == "code"@ {
        Some("VS Code"@)
    } else if stem == "code - insiders"@ {
        Some("VS Code Insiders"@)
    } else if stem == "firefox"@ {
        Some("Firefox"@)
    } else if stem == "chrome"@ {
        Some("Chrome"@)
    } else if stem == "msedge"@ {
        Some("Edge"@)
    } else if stem == "brave"@ {
        Some("Brave"@)
    } else if stem == "opera"@ {
        Some("Opera"@)
    } else if stem == "notepad"@ {
        Some("Notepad"@)
    } else if stem == "notepad++"@ {
        Some("Notepad++"@)
    } else if stem == "powershell"@ {
        Some("PowerShell"@)
    } else if stem == "pwsh"@ {
        Some("PowerShell"@)
    } else if stem == "cmd"@ {
        Some("CMD"@)
    } else if stem == "explorer"@ {
        Some("Explorer"@)
    } else if stem == "slack"@ {
        Some("Slack"@)
    } else if stem == "teams"@ {
        Some("Teams"@)
    } else if stem == "discord"@ {
        Some("Discord"@)
    } else if stem == "spotify"@ {
        Some("Spotify"@)
    } else if stem == "rider64"@ || stem == "rider"@ {
        Some("Rider"@)
    } else if stem == "idea64"@ || stem == "idea"@ {
        Some("IntelliJ IDEA"@)
    } else if stem == "clion64"@ || stem == "clion"@ {
        Some("CLion"@)
    } else if stem == "pycharm64"@ || stem == "pycharm"@ {
        Some("PyCharm"@)
    } else if stem == "webstorm64"@ || stem == "webstorm"@ {
        Some("WebStorm"@)
    } else if stem == "devenv"@ {
        Some("Visual Studio"@)
    } else if stem == "sublime_text"@ {
        Some("Sublime Text"@)
    } else if stem == "atom"@ {
        Some("Atom"@)
    } else if stem == "vim"@ || stem == "gvim"@ || stem == "nvim-qt"@ {
        Some("Vim"@)
    } else if stem == "emacs"@ {
        Some("Emacs"@)
    } else if stem == "obsidian"@ {
        Some("Obsidian"@)
    } else if stem == "notion"@ {
        Some("Notion"@)
    } else if stem == "thunderbird"@ {
        Some("Thunderbird"@)
    } else if stem == "signal"@ {
        Some("Signal"@)
    } else if stem == "telegram"@ {
        Some("Telegram"@)
    } else {
        None
    }
}

/// The stem with its first character in uppercase.
pub open spec fn capitalized(stem: Seq<char>) -> Seq<char> {
    if stem.len() == 0 {
        stem
    } else {
        unicode_uppercase(stem[0]) + stem.drop_first()
    }
}

/// The type label of a window with the lowercase class name `class_lc` and
/// the lowercase executable stem `stem`: the label of a known class first,
/// then that of a known executable, then the capitalised stem (empty when
/// the stem is empty).
pub open spec fn label_of(class_lc: Seq<char>, stem: Seq<char>) -> Seq<char> {
    match class_label(class_lc) {
        Some(label) => label,
        None => match process_label(stem) {
            Some(label) => label,
            None => capitalized(stem),
        },
    }
}

/// Windows of this class or executable carry titles chosen by the user.
pub open spec fn unreliable_of(class_lc: Seq<char>, stem: Seq<char>) -> bool {
    ||| class_lc == "cascadia_hosting_window_class"@
    ||| stem == "wt"@ ||| stem == "windowsterminal"@ ||| stem == "powershell"@ ||| stem == "pwsh"@ ||| stem == "cmd"@ ||| stem == "vim"@ ||| stem == "gvim"@ ||| stem == "nvim-qt"@
}

fn class_label_text(class_lc: &str) -> (r: Option<&'static str>)
    ensures
        r matches Some(l) ==> class_label(class_lc@) == Some(l@),
        r is None ==> class_label(class_lc@) is None,
{
    if same_text(class_lc, "cascadia_hosting_window_class") {
        Some("Windows Terminal")
    } else if same_text(class_lc, "chrome_widgetwin_1") {
        Some("Chrome")
    } else if same_text(class_lc, "mozillawindowclass") {
        Some("Firefox")
    } else if same_text(class_lc, "operawindowclass") {
        Some("Opera")
    } else if same_text(class_lc, "bravebrowser") {
        Some("Brave")
    } else if same_text(class_lc, "vscode_main_window") {
        Some("VS Code")
    } else if same_text(class_lc, "notepad++") {
        Some("Notepad++")
    } else if same_text(class_lc, "konsole_mainwindow") {
        Some("Konsole")
    } else if same_text(class_lc, "gnome-terminal-window") {
        Some("GNOME Terminal")
    } else {
        None
    }
}

fn process_label_text(stem: &str) -> (r: Option<&'static str>)
    ensures
        r matches Some(l) ==> process_label(stem@) == Some(l@),
        r is None ==> process_label(stem@) is None,
{
    if same_text(stem, "wt") {
        Some("Windows Terminal")
    } else if same_text(stem, "windowsterminal") {
        Some("Windows Terminal")
    } else if same_text(stem, "code") {
        Some("VS Code")
    } else if same_text(stem, "code - insiders") {
        Some("VS Code Insiders")
    } else if same_text(stem, "firefox") {
        Some("Firefox")
    } else if same_text(stem, "chrome") {
        Some("Chrome")
    } else if same_text(stem, "msedge") {
        Some("Edge")
    } else if same_text(stem, "brave") {
        Some("Brave")
    } else if same_text(stem, "opera") {
        Some("Opera")
    } else if same_text(stem, "notepad") {
        Some("Notepad")
    } else if same_text(stem, "notepad++") {
        Some("Notepad++")
    } else if same_text(stem, "powershell") {
        Some("PowerShell")
    } else if same_text(stem, "pwsh") {
        Some("PowerShell")
    } else if same_text(stem, "cmd") {
        Some("CMD")
    } else if same_text(stem, "explorer") {
        Some("Explorer")
    } else if same_text(stem, "slack") {
        Some("Slack")
    } else if same_text(stem, "teams") {
        Some("Teams")
    } else if same_text(stem, "discord") {
        Some("Discord")
    } else if same_text(stem, "spotify") {
        Some("Spotify")
    } else if same_text(stem, "rider64") || same_text(stem, "rider") {
        Some("Rider")
    } else if same_text(stem, "idea64") || same_text(stem, "idea") {
        Some("IntelliJ IDEA")
    } else if same_text(stem, "clion64") || same_text(stem, "clion") {
        Some("CLion")
    } else if same_text(stem, "pycharm64") || same_text(stem, "pycharm") {
        Some("PyCharm")
    } else if same_text(stem, "webstorm64") || same_text(stem, "webstorm") {
        Some("WebStorm")
    } else if same_text(stem, "devenv") {
        Some("Visual Studio")
    } else if same_text(stem, "sublime_text") {
        Some("Sublime Text")
    } else if same_text(stem, "atom") {
        Some("Atom")
    } else if same_text(stem, "vim") || same_text(stem, "gvim") || same_text(stem, "nvim-qt") {
        Some("Vim")
    } else if same_text(stem, "emacs") {
        Some("Emacs")
    } else if same_text(stem, "obsidian") {
        Some("Obsidian")
    } else if same_text(stem, "notion") {
        Some("Notion")
    } else if same_text(stem, "thunderbird") {
        Some("Thunderbird")
    } else if same_text(stem, "signal") {
        Some("Signal")
    } else if same_text(stem, "telegram") {
        Some("Telegram")
    } else {
        None
    }
}

/// The type label for a lowercase class name and a lowercase executable stem.
pub fn label_for(class_lc: &str, stem: &str) -> (r: String)
    ensures
        r@ == label_of(class_lc@, stem@),
        r@.len() == 0 <==> (class_label(class_lc@) is None && stem@.len() == 0),
{
    proof {
        lemma_known_labels(class_lc@, stem@);
    }
    if let Some(label) = class_label_text(class_lc) {
        return label.to_string();
    }
    if let Some(label) = process_label_text(stem) {
        return label.to_string();
    }
    let n = stem.unicode_len();
    if n == 0 {
        return String::new();
    }
    let mut first = char_to_uppercase(stem.get_char(0));
    first.append(stem.substring_char(1, n));
    assert(stem@.subrange(1, n as int) =~= stem@.drop_first());
    first
}

/// Whether titles of windows with this lowercase class name and executable
/// stem are chosen by the user.
pub fn unreliable_for(class_lc: &str, stem: &str) -> (r: bool)
    ensures
        r == unreliable_of(class_lc@, stem@),
{
    same_text(class_lc, "cascadia_hosting_window_class") || same_text(stem, "wt") || same_text(stem, "windowsterminal") || same_text(stem, "powershell") || same_text(stem, "pwsh") || same_text(stem, "cmd") || same_text(stem, "vim") || same_text(stem, "gvim") || same_text(stem, "nvim-qt")
}

/// What the type label of `w` can be, whatever the platform makes of its
/// process name: the label for its lowercase class name and some stem that
/// the process name can give. It is empty exactly when the class is unknown
/// and the stem is empty.
pub open spec fn is_type_label_outcome(w: WindowInfo, label: Seq<char>) -> bool {
    exists|stem: Seq<char>|
        {
            &&& #[trigger] stem_outcome(w.process_name@, stem)
            &&& label == label_of(unicode_lowercase(w.class_name@), stem)
            &&& label.len() == 0 <==> (class_label(unicode_lowercase(w.class_name@)) is None
                && stem.len() == 0)
        }
}

/// What `title_is_unreliable` can answer for `w`, whatever the platform
/// makes of its process name.
pub open spec fn is_unreliable_outcome(w: WindowInfo, unreliable: bool) -> bool {
    exists|stem: Seq<char>|
        #[trigger] stem_outcome(w.process_name@, stem) && unreliable == unreliable_of(
            unicode_lowercase(w.class_name@),
            stem,
        )
}

impl WindowInfo {
    /// A short human-readable label of the window's application: from a
    /// known class name, else from a known executable name, else the
    /// executable stem with its first letter in uppercase; empty when both
    /// are unknown.
    pub fn type_label(&self) -> (r: String)
        ensures
            is_type_label_outcome(*self, r@),
    {
        let class_lc = to_lowercase(self.class_name.as_str());
        let stem = exe_stem(self.process_name.as_str());
        label_for(class_lc.as_str(), stem.as_str())
    }

    /// Whether windows of this kind carry user-chosen titles, so that a list
    /// should show the type label beside the title.
    pub fn title_is_unreliable(&self) -> (r: bool)
        ensures
            is_unreliable_outcome(*self, r),
    {
        let class_lc = to_lowercase(self.class_name.as_str());
        let stem = exe_stem(self.process_name.as_str());
        unreliable_for(class_lc.as_str(), stem.as_str())
    }
}


/// `w` has these handle, title, process name and class name.
pub open spec fn is_window(
    w: WindowInfo,
    hwnd: usize,
    title: Seq<char>,
    process_name: Seq<char>,
    class_name: Seq<char>,
) -> bool {
    &&& w.hwnd == hwnd
    &&& w.title@ == title
    &&& w.process_name@ == process_name
    &&& w.class_name@ == class_name
}

/// The sample windows that the listing reports.
pub open spec fn is_sample_listing(ws: Seq<WindowInfo>) -> bool {
    &&& ws.len() == 6
    &&& is_window(ws[0], 1, "Firefox \u{2014} GitHub"@, "firefox.exe"@, "MozillaWindowClass"@)
    &&& is_window(ws[1], 2, "Visual Studio Code"@, "Code.exe"@, "Chrome_WidgetWin_1"@)
    &&& is_window(ws[2], 3, "my-project"@, "wt.exe"@, "CASCADIA_HOSTING_WINDOW_CLASS"@)
    &&& is_window(ws[3], 4, "ssh prod-server"@, "wt.exe"@, "CASCADIA_HOSTING_WINDOW_CLASS"@)
    &&& is_window(ws[4], 5, "Notepad \u{2014} readme.txt"@, "notepad.exe"@, "Notepad"@)
    &&& is_window(ws[5], 6, "Task Manager"@, "Taskmgr.exe"@, "TaskManagerWindow"@)
}

/// Lists the visible windows. Without a desktop to ask, this is a fixed set
/// of sample windows, so that the search and colouring logic can be
/// exercised anywhere.
pub fn enumerate_windows() -> (r: Result<Vec<WindowInfo>, PlatformError>)
    ensures
        r is Ok,
        r matches Ok(ws) ==> is_sample_listing(ws@),
{
    let ws = vec![
        WindowInfo {
            hwnd: 1,
            title: "Firefox \u{2014} GitHub".to_string(),
            process_name: "firefox.exe".to_string(),
            class_name: "MozillaWindowClass".to_string(),
        },
        WindowInfo {
            hwnd: 2,
            title: "Visual Studio Code".to_string(),
            process_name: "Code.exe".to_string(),
            class_name: "Chrome_WidgetWin_1".to_string(),
        },
        WindowInfo {
            hwnd: 3,
            title: "my-project".to_string(),
            process_name: "wt.exe".to_string(),
            class_name: "CASCADIA_HOSTING_WINDOW_CLASS".to_string(),
        },
        WindowInfo {
            hwnd: 4,
            title: "ssh prod-server".to_string(),
            process_name: "wt.exe".to_string(),
            class_name: "CASCADIA_HOSTING_WINDOW_CLASS".to_string(),
        },
        WindowInfo {
            hwnd: 5,
            title: "Notepad \u{2014} readme.txt".to_string(),
            process_name: "notepad.exe".to_string(),
            class_name: "Notepad".to_string(),
        },
        WindowInfo {
            hwnd: 6,
            title: "Task Manager".to_string(),
            process_name: "Taskmgr.exe".to_string(),
            class_name: "TaskManagerWindow".to_string(),
        },
    ];
    Ok(ws)
}

/// An operation on a window.
#[derive(Debug, Clone, Copy, PartialEq, Eq, Structural)]
pub enum WindowOperation {
    BringToFront,
    Close,
}

/// Failure of an operation on a window.
#[derive(Debug, Clone, Copy, PartialEq, Eq, Structural)]
pub enum PlatformError {
    /// The operation is not available on this platform.
    Unsupported { operation: WindowOperation, hwnd: usize },
}

/// The name under which an operation is reported.
pub open spec fn operation_name(op: WindowOperation) -> Seq<char> {
    match op {
        WindowOperation::BringToFront => "bring_to_front"@,
        WindowOperation::Close => "close_window"@,
    }
}

/// The text of an error.
pub open spec fn error_text(e: PlatformError) -> Seq<char> {
    match e {
        PlatformError::Unsupported { operation, hwnd } => operation_name(operation)
            + " is not supported on this platform (hwnd="@ + decimal_digits(hwnd as nat) + ")"@,
    }
}

impl PlatformError {
    /// The error as a message for the user.
    pub fn message(&self) -> (r: String)
        ensures
            r@ == error_text(*self),
    {
        match self {
            PlatformError::Unsupported { operation, hwnd } => {
                let mut m = match operation {
                    WindowOperation::BringToFront => "bring_to_front".to_string(),
                    WindowOperation::Close => "close_window".to_string(),
                };
                m.append(" is not supported on this platform (hwnd=");
                let digits = decimal_string(*hwnd);
                m.append(digits.as_str());
                m.append(")");
                m
            },
        }
    }
}

/// Brings a window to the front. Without a desktop to act on, this always
/// fails with `Unsupported`.
pub fn bring_to_front(info: &WindowInfo) -> (r: Result<(), PlatformError>)
    ensures
        r == Err::<(), PlatformError>(
            PlatformError::Unsupported { operation: WindowOperation::BringToFront, hwnd: info.hwnd },
        ),
{
    Err(PlatformError::Unsupported { operation: WindowOperation::BringToFront, hwnd: info.hwnd })
}

/// Asks a window to close. Without a desktop to act on, this always fails
/// with `Unsupported`.
pub fn close_window(info: &WindowInfo) -> (r: Result<(), PlatformError>)
    ensures
        r == Err::<(), PlatformError>(
            PlatformError::Unsupported { operation: WindowOperation::Close, hwnd: info.hwnd },
        ),
{
    Err(PlatformError::Unsupported { operation: WindowOperation::Close, hwnd: info.hwnd })
}


/// The labels of known classes and executables are not empty, and no
/// executable is known by an empty stem.
pub proof fn lemma_known_labels(class_lc: Seq<char>, stem: Seq<char>)
    ensures
        class_label(class_lc) matches Some(l) ==> l.len() > 0,
        process_label(stem) matches Some(l) ==> l.len() > 0,
        stem.len() == 0 ==> process_label(stem) is None,
{
    reveal_strlit("Atom");
    reveal_strlit("Brave");
    reveal_strlit("CLion");
    reveal_strlit("CMD");
    reveal_strlit("Chrome");
    reveal_strlit("Discord");
    reveal_strlit("Edge");
    reveal_strlit("Emacs");
    reveal_strlit("Explorer");
    reveal_strlit("Firefox");
    reveal_strlit("GNOME Terminal");
    reveal_strlit("IntelliJ IDEA");
    reveal_strlit("Konsole");
    reveal_strlit("Notepad");
    reveal_strlit("Notepad++");
    reveal_strlit("Notion");
    reveal_strlit("Obsidian");
    reveal_strlit("Opera");
    reveal_strlit("PowerShell");
    reveal_strlit("PyCharm");
    reveal_strlit("Rider");
    reveal_strlit("Signal");
    reveal_strlit("Slack");
    reveal_strlit("Spotify");
    reveal_strlit("Sublime Text");
    reveal_strlit("Teams");
    reveal_strlit("Telegram");
    reveal_strlit("Thunderbird");
    reveal_strlit("VS Code");
    reveal_strlit("VS Code Insiders");
    reveal_strlit("Vim");
    reveal_strlit("Visual Studio");
    reveal_strlit("WebStorm");
    reveal_strlit("Windows Terminal");
    reveal_strlit("wt");
    reveal_strlit("windowsterminal");
    reveal_strlit("code");
    reveal_strlit("code - insiders");
    reveal_strlit("firefox");
    reveal_strlit("chrome");
    reveal_strlit("msedge");
    reveal_strlit("brave");
    reveal_strlit("opera");
    reveal_strlit("notepad");
    reveal_strlit("notepad++");
    reveal_strlit("powershell");
    reveal_strlit("pwsh");
    reveal_strlit("cmd");
    reveal_strlit("explorer");
    reveal_strlit("slack");
    reveal_strlit("teams");
    reveal_strlit("discord");
    reveal_strlit("spotify");
    reveal_strlit("rider64");
    reveal_strlit("rider");
    reveal_strlit("idea64");
    reveal_strlit("idea");
    reveal_strlit("clion64");
    reveal_strlit("clion");
    reveal_strlit("pycharm64");
    reveal_strlit("pycharm");
    reveal_strlit("webstorm64");
    reveal_strlit("webstorm");
    reveal_strlit("devenv");
    reveal_strlit("sublime_text");
    reveal_strlit("atom");
    reveal_strlit("vim");
    reveal_strlit("gvim");
    reveal_strlit("nvim-qt");
    reveal_strlit("emacs");
    reveal_strlit("obsidian");
    reveal_strlit("notion");
    reveal_strlit("thunderbird");
    reveal_strlit("signal");
    reveal_strlit("telegram");
}

/// A window whose title is chosen by the user always has a type label to
/// show beside it.
pub proof fn lemma_unreliable_has_label(class_lc: Seq<char>, stem: Seq<char>)
    requires
        unreliable_of(class_lc, stem),
    ensures
        label_of(class_lc, stem).len() > 0,
{
    lemma_known_labels(class_lc, stem);
}

/// Where every platform agrees on the executable stem, the type label is
/// fixed: the label for the lowercase class name and that stem.
pub proof fn lemma_label_fixed(w: WindowInfo, label: Seq<char>)
    requires
        is_type_label_outcome(w, label),
        stem_is_fixed(w.process_name@),
    ensures
        label == label_of(unicode_lowercase(w.class_name@), fixed_stem(w.process_name@)),
{
}

/// The type label depends only on the lowercase class name and the
/// executable stem: two windows that agree on both have the same label.
pub proof fn lemma_label_depends_on_class_and_stem(
    w1: WindowInfo,
    label1: Seq<char>,
    w2: WindowInfo,
    label2: Seq<char>,
)
    requires
        is_type_label_outcome(w1, label1),
        is_type_label_outcome(w2, label2),
        unicode_lowercase(w1.class_name@) == unicode_lowercase(w2.class_name@),
        stem_is_fixed(w1.process_name@),
        stem_is_fixed(w2.process_name@),
        fixed_stem(w1.process_name@) == fixed_stem(w2.process_name@),
    ensures
        label1 == label2,
{
}

/// A window whose title `title_is_unreliable` reports as user-chosen has a
/// type label to show instead.
pub proof fn lemma_unreliable_window_has_label(w: WindowInfo, unreliable: bool, label: Seq<char>)
    requires
        is_unreliable_outcome(w, unreliable),
        unreliable,
        is_type_label_outcome(w, label),
        stem_is_fixed(w.process_name@) || unicode_lowercase(w.class_name@)
            == "cascadia_hosting_window_class"@,
    ensures
        label.len() > 0,
{
    let class_lc = unicode_lowercase(w.class_name@);
    let stem = choose|stem: Seq<char>|
        #[trigger] stem_outcome(w.process_name@, stem) && label == label_of(class_lc, stem)
            && (label.len() == 0 <==> (class_label(class_lc) is None && stem.len() == 0));
    if stem_is_fixed(w.process_name@) {
        let s2 = choose|s2: Seq<char>|
            #[trigger] stem_outcome(w.process_name@, s2) && unreliable == unreliable_of(
                class_lc,
                s2,
            );
        lemma_unreliable_has_label(class_lc, s2);
    } else {
        lemma_known_labels(class_lc, stem);
    }
}

} // verus!
