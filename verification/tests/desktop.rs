use platform_napi::desktop::{
    get_desktop_icon_visibility, set_desktop_icon_visibility, shell_name_wide, DesktopAction,
    DesktopEvent, DesktopJob, DesktopWindows, FindWindowQuery, Phase, ShellName, HIDE_ICONS_BIT,
    TOGGLE_DESKTOP_ICONS, WM_COMMAND,
};
use platform_napi::interactive::PostedMessage;
use platform_napi::version::OsVersion;

const PROGMAN: isize = 100;
const DESKTOP: isize = 1;
const WORKER_WITH_ICONS: isize = 200;
const WORKER_BEHIND: isize = 300;
const DEF_VIEW: isize = 400;
const CHILD: isize = 777;

fn q(parent: isize, after: isize, class: ShellName) -> DesktopAction {
    DesktopAction::FindWindow(FindWindowQuery { parent, after, class, title: ShellName::Empty })
}

fn handle(h: isize) -> DesktopEvent {
    DesktopEvent::Handle(h)
}

#[test]
fn shell_names_are_wide_strings() {
    let expect = |s: &str| -> Vec<u16> { s.encode_utf16().chain(std::iter::once(0)).collect() };
    assert_eq!(shell_name_wide(ShellName::Progman), expect("Progman"));
    assert_eq!(shell_name_wide(ShellName::ProgramManager), expect("Program Manager"));
    assert_eq!(shell_name_wide(ShellName::ShellDllDefView), expect("SHELLDLL_DefView"));
    assert_eq!(shell_name_wide(ShellName::SysListView32), expect("SysListView32"));
    assert_eq!(shell_name_wide(ShellName::FolderView), expect("FolderView"));
    assert_eq!(shell_name_wide(ShellName::WorkerW), expect("WorkerW"));
    assert_eq!(shell_name_wide(ShellName::Empty), vec![0]);
}

#[test]
fn icon_flag_and_toggle() {
    assert!(get_desktop_icon_visibility(0x1000));
    assert!(get_desktop_icon_visibility(0x1234 | 0x1000));
    assert!(!get_desktop_icon_visibility(0x0FFF));
    assert!(get_desktop_icon_visibility(-1));
    let toggle = PostedMessage { message: WM_COMMAND, wparam: TOGGLE_DESKTOP_ICONS, lparam: 0 };
    assert_eq!((toggle.message, toggle.wparam), (0x0111, 0x7402));
    assert_eq!(set_desktop_icon_visibility(0x1000, false), Some(toggle));
    assert_eq!(set_desktop_icon_visibility(0x1000, true), None);
    assert_eq!(set_desktop_icon_visibility(0, true), Some(toggle));
    assert_eq!(set_desktop_icon_visibility(0, false), None);
    // Where the toggle flips the bit, reading after setting gives the value set.
    for bits in [0i32, 0x1000, 0x7fff_ffff, -1] {
        for visible in [true, false] {
            let after = match set_desktop_icon_visibility(bits, visible) {
                Some(_) => bits ^ HIDE_ICONS_BIT,
                None => bits,
            };
            assert_eq!(get_desktop_icon_visibility(after), visible);
        }
    }
}

#[test]
fn finds_the_shell_view_inside_a_worker_window() {
    let mut m = DesktopWindows::new();
    assert_eq!(m.start(DesktopJob::FindShellView), DesktopAction::FindProgman);
    assert_eq!(m.resume(handle(PROGMAN)), DesktopAction::GetDesktopWindow);
    assert_eq!(m.resume(handle(DESKTOP)), q(PROGMAN, 0, ShellName::ShellDllDefView));
    assert_eq!(m.resume(handle(0)), q(DESKTOP, 0, ShellName::WorkerW));
    assert_eq!(m.resume(handle(WORKER_BEHIND)), q(WORKER_BEHIND, 0, ShellName::ShellDllDefView));
    assert_eq!(m.resume(handle(0)), q(DESKTOP, WORKER_BEHIND, ShellName::WorkerW));
    assert_eq!(m.resume(handle(WORKER_WITH_ICONS)), q(WORKER_WITH_ICONS, 0, ShellName::ShellDllDefView));
    assert_eq!(m.resume(handle(DEF_VIEW)), DesktopAction::ShellView(DEF_VIEW));
    assert_eq!(m.phase, Phase::Idle);
}

#[test]
fn shell_view_search_edge_cases() {
    // No program manager: nothing to find.
    let mut m = DesktopWindows::new();
    m.start(DesktopJob::FindShellView);
    m.resume(handle(0));
    assert_eq!(m.resume(handle(DESKTOP)), DesktopAction::ShellView(0));
    // The view under the program manager itself.
    let mut m = DesktopWindows::new();
    m.start(DesktopJob::FindShellView);
    m.resume(handle(PROGMAN));
    m.resume(handle(DESKTOP));
    assert_eq!(m.resume(handle(DEF_VIEW)), DesktopAction::ShellView(DEF_VIEW));
    // No more worker windows: the search ends empty.
    let mut m = DesktopWindows::new();
    m.start(DesktopJob::FindShellView);
    m.resume(handle(PROGMAN));
    m.resume(handle(DESKTOP));
    m.resume(handle(0));
    assert_eq!(m.resume(handle(0)), q(0, 0, ShellName::ShellDllDefView));
    assert_eq!(m.resume(handle(0)), DesktopAction::ShellView(0));
}

fn setup_modern(m: &mut DesktopWindows) {
    assert_eq!(m.start(DesktopJob::SetupParent(Some(CHILD))), DesktopAction::FindProgman);
    assert_eq!(m.resume(handle(PROGMAN)), DesktopAction::SpawnWorker(PROGMAN));
    assert_eq!(m.resume(DesktopEvent::Ack), DesktopAction::EnumTopWindows);
    // The first top-level window holds the icons; the worker behind it follows.
    assert_eq!(m.resume(DesktopEvent::TopWindow(WORKER_WITH_ICONS)), q(WORKER_WITH_ICONS, 0, ShellName::ShellDllDefView));
    assert_eq!(m.resume(handle(DEF_VIEW)), q(0, WORKER_WITH_ICONS, ShellName::WorkerW));
    assert_eq!(m.resume(handle(WORKER_BEHIND)), DesktopAction::NextTopWindow);
    assert_eq!(m.worker, WORKER_BEHIND);
    assert_eq!(m.resume(DesktopEvent::TopWindow(WORKER_BEHIND)), q(WORKER_BEHIND, 0, ShellName::ShellDllDefView));
    assert_eq!(m.resume(handle(0)), DesktopAction::NextTopWindow);
    assert_eq!(m.resume(DesktopEvent::TopWindow(PROGMAN)), q(PROGMAN, 0, ShellName::ShellDllDefView));
    assert_eq!(m.resume(handle(0)), DesktopAction::NextTopWindow);
    assert_eq!(m.resume(DesktopEvent::TopWindowsDone), DesktopAction::ReadOsVersion);
    assert!(m.initialized);
    let win10 = OsVersion { major: 10, minor: 0, patch: 19045 };
    assert_eq!(m.resume(DesktopEvent::Version(win10)), DesktopAction::SetParent(CHILD, WORKER_BEHIND));
    assert_eq!(m.resume(handle(5)), DesktopAction::ShowWindow(WORKER_BEHIND, true));
    assert_eq!(m.resume(DesktopEvent::Ack), DesktopAction::Finished);
    assert_eq!(m.phase, Phase::Idle);
}

#[test]
fn attaches_to_the_worker_behind_the_icons() {
    let mut m = DesktopWindows::new();
    setup_modern(&mut m);
    // A second setup goes straight to attaching.
    assert_eq!(m.start(DesktopJob::SetupParent(Some(CHILD))), DesktopAction::ReadOsVersion);
    let win10 = OsVersion { major: 10, minor: 0, patch: 0 };
    assert_eq!(m.resume(DesktopEvent::Version(win10)), DesktopAction::SetParent(CHILD, WORKER_BEHIND));
    // A failure is reported, and the worker is shown all the same.
    assert_eq!(m.resume(handle(0)), DesktopAction::ReportParentFailure);
    assert_eq!(m.resume(DesktopEvent::Ack), DesktopAction::ShowWindow(WORKER_BEHIND, true));
    assert_eq!(m.resume(DesktopEvent::Ack), DesktopAction::Finished);
    // Without a window there is nothing to attach.
    assert_eq!(m.start(DesktopJob::SetupParent(None)), DesktopAction::Finished);
}

#[test]
fn windows_7_attaches_to_the_program_manager() {
    let mut m = DesktopWindows::new();
    m.start(DesktopJob::SetupParent(Some(CHILD)));
    m.resume(handle(PROGMAN));
    m.resume(DesktopEvent::Ack);
    // No top-level window holds the icons.
    assert_eq!(m.resume(DesktopEvent::TopWindow(PROGMAN)), q(PROGMAN, 0, ShellName::ShellDllDefView));
    assert_eq!(m.resume(handle(DEF_VIEW)), q(0, PROGMAN, ShellName::WorkerW));
    assert_eq!(m.resume(handle(0)), DesktopAction::NextTopWindow);
    // Still no worker: search for it.
    assert_eq!(m.resume(DesktopEvent::TopWindowsDone), DesktopAction::FindProgman);
    assert_eq!(m.resume(handle(PROGMAN)), q(PROGMAN, 0, ShellName::ShellDllDefView));
    assert_eq!(m.resume(handle(DEF_VIEW)), DesktopAction::SpawnWorker(PROGMAN));
    assert_eq!(m.resume(DesktopEvent::Ack), DesktopAction::ReadOsVersion);
    let win7 = OsVersion { major: 6, minor: 1, patch: 7601 };
    assert_eq!(m.resume(DesktopEvent::Version(win7)), DesktopAction::ShowWindow(0, false));
    assert_eq!(m.resume(DesktopEvent::Ack), DesktopAction::SetParent(CHILD, PROGMAN));
    assert_eq!(m.resume(handle(1)), DesktopAction::ShowWindow(PROGMAN, true));
    assert_eq!(m.worker, PROGMAN);
    assert_eq!(m.resume(DesktopEvent::Ack), DesktopAction::Finished);
    // Once the program manager is the worker, it is not hidden again.
    m.start(DesktopJob::SetupParent(Some(CHILD)));
    assert_eq!(m.resume(DesktopEvent::Version(win7)), DesktopAction::SetParent(CHILD, PROGMAN));
    assert_eq!(m.resume(handle(0)), DesktopAction::ReportParentFailure);
    assert_eq!(m.resume(DesktopEvent::Ack), DesktopAction::ShowWindow(PROGMAN, true));
}

#[test]
fn worker_search_walks_the_worker_windows() {
    let mut m = DesktopWindows::new();
    m.initialized = true;
    assert_eq!(m.start(DesktopJob::SetupParent(None)), DesktopAction::FindProgman);
    assert_eq!(m.resume(handle(PROGMAN)), q(PROGMAN, 0, ShellName::ShellDllDefView));
    assert_eq!(m.resume(handle(0)), DesktopAction::SpawnWorker(PROGMAN));
    assert_eq!(m.resume(DesktopEvent::Ack), DesktopAction::GetDesktopWindow);
    assert_eq!(m.resume(handle(DESKTOP)), q(DESKTOP, 0, ShellName::WorkerW));
    assert_eq!(m.resume(handle(WORKER_BEHIND)), q(WORKER_BEHIND, 0, ShellName::ShellDllDefView));
    assert_eq!(m.resume(handle(0)), DesktopAction::GetDesktopWindow);
    assert_eq!(m.resume(handle(DESKTOP)), q(DESKTOP, WORKER_BEHIND, ShellName::WorkerW));
    assert_eq!(m.resume(handle(WORKER_WITH_ICONS)), q(WORKER_WITH_ICONS, 0, ShellName::ShellDllDefView));
    assert_eq!(m.resume(handle(DEF_VIEW)), DesktopAction::Finished);
    assert_eq!(m.worker_orig, WORKER_WITH_ICONS);
    assert_eq!(m.progman, PROGMAN);
}

#[test]
fn is_desktop_compares_the_foreground_window() {
    let mut m = DesktopWindows::new();
    assert_eq!(m.start(DesktopJob::IsDesktop), DesktopAction::GetForegroundWindow);
    assert_eq!(m.resume(handle(PROGMAN)), DesktopAction::FindProgman);
    assert_eq!(m.resume(handle(PROGMAN)), DesktopAction::IsDesktop(true));

    // With the worker known, no window is looked up.
    let mut m = DesktopWindows::new();
    m.worker_orig = WORKER_WITH_ICONS;
    m.start(DesktopJob::IsDesktop);
    m.resume(handle(WORKER_WITH_ICONS));
    assert_eq!(m.resume(handle(PROGMAN)), DesktopAction::IsDesktop(true));
    m.start(DesktopJob::IsDesktop);
    m.resume(handle(55));
    assert_eq!(m.resume(handle(PROGMAN)), DesktopAction::IsDesktop(false));

    // Without it, the search runs first.
    let mut m = DesktopWindows::new();
    m.start(DesktopJob::IsDesktop);
    m.resume(handle(55));
    assert_eq!(m.resume(handle(PROGMAN)), DesktopAction::FindProgman);
    assert_eq!(m.resume(handle(PROGMAN)), q(PROGMAN, 0, ShellName::ShellDllDefView));
    assert_eq!(m.resume(handle(DEF_VIEW)), DesktopAction::SpawnWorker(PROGMAN));
    assert_eq!(m.resume(DesktopEvent::Ack), DesktopAction::IsDesktop(false));
}

#[test]
fn restore_resets_the_wallpaper_after_setup() {
    let mut m = DesktopWindows::new();
    assert_eq!(m.start(DesktopJob::RestoreParent), DesktopAction::Finished);
    assert_eq!(m, DesktopWindows::new());
    setup_modern(&mut m);
    assert_eq!(m.start(DesktopJob::RestoreParent), DesktopAction::ResetWallpaper);
    assert_eq!(m.resume(DesktopEvent::Ack), DesktopAction::ShowWindow(WORKER_BEHIND, true));
    assert_eq!(m.resume(DesktopEvent::Ack), DesktopAction::Finished);
}

#[test]
fn named_jobs_start_their_job() {
    let mut a = DesktopWindows::new();
    let mut b = DesktopWindows::new();
    assert_eq!(a.setup_interactive_parent_window(Some(CHILD)), b.start(DesktopJob::SetupParent(Some(CHILD))));
    assert_eq!(a, b);
    assert_eq!(a.is_desktop(), b.start(DesktopJob::IsDesktop));
    assert_eq!(a.find_desktop_shell_dll_def_view(), b.start(DesktopJob::FindShellView));
    assert_eq!(a.restore_interactive_parent_window(), b.start(DesktopJob::RestoreParent));
    assert_eq!(a, b);
}

#[test]
fn unexpected_answers_are_ignored() {
    let mut m = DesktopWindows::new();
    assert_eq!(m.resume(handle(3)), DesktopAction::Ignored);
    assert_eq!(m, DesktopWindows::new());
    m.start(DesktopJob::IsDesktop);
    let before = m;
    assert_eq!(m.resume(DesktopEvent::Ack), DesktopAction::Ignored);
    assert_eq!(m, before);
}
