use platform_napi::desktop::{DesktopAction, DesktopEvent, FindWindowQuery, ShellName};
use platform_napi::win32_desktop::{Win32DesktopWindows, Win32Job, Win32Phase};

fn q(parent: isize, after: isize, class: ShellName) -> DesktopAction {
    DesktopAction::FindWindow(FindWindowQuery { parent, after, class, title: ShellName::Empty })
}

#[test]
fn stops_at_the_window_holding_the_view() {
    let mut m = Win32DesktopWindows::new();
    assert_eq!(m.start(Win32Job::SetupParent(Some(9))), DesktopAction::FindProgman);
    assert_eq!(m.resume(DesktopEvent::Handle(100)), DesktopAction::SpawnWorker(100));
    assert_eq!(m.resume(DesktopEvent::Ack), DesktopAction::EnumTopWindows);
    assert_eq!(m.resume(DesktopEvent::TopWindow(50)), q(50, 0, ShellName::ShellDllDefView));
    assert_eq!(m.resume(DesktopEvent::Handle(0)), DesktopAction::NextTopWindow);
    assert_eq!(m.resume(DesktopEvent::TopWindow(200)), q(200, 0, ShellName::ShellDllDefView));
    assert_eq!(
        m.resume(DesktopEvent::Handle(400)),
        DesktopAction::FindWindow(FindWindowQuery {
            parent: 400,
            after: 0,
            class: ShellName::SysListView32,
            title: ShellName::FolderView,
        })
    );
    assert_eq!(m.resume(DesktopEvent::Handle(401)), q(0, 200, ShellName::WorkerW));
    assert_eq!(m.resume(DesktopEvent::Handle(300)), DesktopAction::StopEnumeration);
    assert_eq!((m.worker, m.def_view, m.view_host, m.folder_view), (300, 400, 200, 401));
    assert_eq!(m.resume(DesktopEvent::TopWindowsDone), DesktopAction::SetParent(9, 300));
    assert_eq!(m.resume(DesktopEvent::Handle(0)), DesktopAction::ShowWindow(300, true));
    assert_eq!(m.resume(DesktopEvent::Ack), DesktopAction::Finished);
    assert_eq!(m.phase, Win32Phase::Idle);
    // Once known, the worker is used straight away.
    assert_eq!(m.start(Win32Job::SetupParent(Some(10))), DesktopAction::SetParent(10, 300));
    assert_eq!(m.start(Win32Job::SetupParent(None)), DesktopAction::Finished);
    assert_eq!(m.start(Win32Job::RestoreParent), DesktopAction::ShowWindow(300, false));
    assert_eq!(m.resume(DesktopEvent::Ack), DesktopAction::Finished);
}

#[test]
fn named_direct_jobs_start_their_job() {
    let mut m = Win32DesktopWindows::new();
    assert_eq!(m.setup_interactive_parent_window(Some(9)), DesktopAction::FindProgman);
    assert_eq!(m.phase, Win32Phase::SearchProgman(platform_napi::win32_desktop::SearchThen::Setup(Some(9))));
    let mut m = Win32DesktopWindows::new();
    assert_eq!(m.restore_interactive_parent_window(), DesktopAction::FindProgman);
}

#[test]
fn falls_back_to_the_program_manager() {
    let mut m = Win32DesktopWindows::new();
    m.start(Win32Job::SetupParent(Some(9)));
    m.resume(DesktopEvent::Handle(100));
    m.resume(DesktopEvent::Ack);
    assert_eq!(m.resume(DesktopEvent::TopWindowsDone), DesktopAction::FindProgman);
    assert_eq!(m.resume(DesktopEvent::Handle(100)), DesktopAction::SetParent(9, 100));
    assert_eq!(m.worker, 100);
}

#[test]
fn restore_searches_first_when_nothing_is_known() {
    let mut m = Win32DesktopWindows::new();
    assert_eq!(m.start(Win32Job::RestoreParent), DesktopAction::FindProgman);
    assert_eq!(m.resume(DesktopEvent::Handle(100)), DesktopAction::SpawnWorker(100));
    assert_eq!(m.resume(DesktopEvent::Ack), DesktopAction::EnumTopWindows);
    assert_eq!(m.resume(DesktopEvent::TopWindowsDone), DesktopAction::ShowWindow(0, false));
    assert_eq!(m.resume(DesktopEvent::Ack), DesktopAction::Finished);
    assert_eq!(m.resume(DesktopEvent::Ack), DesktopAction::Ignored);
}
