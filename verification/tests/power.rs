use platform_napi::power::{
    ShutdownBlocker, ShutdownReply, SHUTDOWN_FLAGS, SHUTDOWN_LEVEL, WM_ENDSESSION,
    WM_QUERYENDSESSION,
};

fn wide(s: &str) -> Vec<u16> {
    s.encode_utf16().chain(std::iter::once(0)).collect()
}

#[test]
fn fresh_blocker_lets_the_session_end() {
    let b: ShutdownBlocker<u8> = ShutdownBlocker::new();
    assert!(b.needs_window());
    assert_eq!(b.window(), 0);
    assert!(b.callback().is_none());
    assert_eq!(
        b.window_proc(WM_QUERYENDSESSION, 0),
        ShutdownReply { notify: false, result: Some(1) }
    );
}

#[test]
fn blocker_refuses_shutdown_and_tells_the_callback() {
    let mut b: ShutdownBlocker<u8> = ShutdownBlocker::new();
    let request = b.create_shutdown_blocker(77, Some(5), "Saving files");
    assert_eq!(request.window, 77);
    assert_eq!(request.reason, wide("Saving files"));
    assert_eq!((request.level, request.flags), (SHUTDOWN_LEVEL, SHUTDOWN_FLAGS));
    assert_eq!((request.level, request.flags), (0x3FF, 0));
    assert!(!b.needs_window());
    assert_eq!(b.callback(), Some(&5));
    assert_eq!(
        b.window_proc(WM_QUERYENDSESSION, 0),
        ShutdownReply { notify: true, result: Some(0) }
    );
    assert_eq!(b.window_proc(WM_ENDSESSION, 0), ShutdownReply { notify: false, result: Some(0) });
    assert_eq!(b.window_proc(WM_ENDSESSION, 1), ShutdownReply { notify: false, result: None });
    assert_eq!(b.window_proc(0x0010, 0), ShutdownReply { notify: false, result: None });
}

#[test]
fn destroyed_blocker_lets_the_session_end() {
    let mut b: ShutdownBlocker<u8> = ShutdownBlocker::new();
    b.create_shutdown_blocker(77, Some(5), "x");
    assert_eq!(b.destroy_shutdown_blocker(), 77);
    assert!(b.callback().is_none());
    assert_eq!(
        b.window_proc(WM_QUERYENDSESSION, 0),
        ShutdownReply { notify: false, result: Some(1) }
    );
    // The window handle is kept: a second blocker reuses it.
    assert!(!b.needs_window());
    let request = b.create_shutdown_blocker(99, None, "again");
    assert_eq!(request.window, 77);
    assert!(b.callback().is_none());
    assert_eq!(
        b.window_proc(WM_QUERYENDSESSION, 3),
        ShutdownReply { notify: false, result: Some(0) }
    );
}

#[test]
fn a_missing_callback_keeps_the_old_one() {
    let mut b: ShutdownBlocker<u8> = ShutdownBlocker::new();
    b.create_shutdown_blocker(1, Some(7), "a");
    b.create_shutdown_blocker(2, None, "b");
    assert_eq!(b.callback(), Some(&7));
    assert_eq!(b.window(), 1);
    b.create_shutdown_blocker(2, Some(8), "c");
    assert_eq!(b.callback(), Some(&8));
}
