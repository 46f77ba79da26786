use platform_napi::event::{InputEvent, RawEvent};
use platform_napi::flags::ModifiersState;
use platform_napi::interactive::{
    input_window_proc, keyboard_extended, keyboard_lparam, layout_scancode, point_lparam,
    raw_input_kind, raw_input_status_ok, reverse_bits, translate_device_event, translate_keyboard,
    translate_mouse, wheel_delta, window_handle_from_u64, DeviceEvent, InputStep,
    InteractiveWindow, PostedMessage, RawInputKind, RawKeyboard, RawMouse, MK_LBUTTON,
    MK_MBUTTON, RI_MOUSE_LEFT_BUTTON_DOWN, RI_MOUSE_LEFT_BUTTON_UP, RI_MOUSE_RIGHT_BUTTON_DOWN,
    RI_MOUSE_RIGHT_BUTTON_UP, RI_MOUSE_WHEEL, WM_INPUT, WM_KEYDOWN, WM_KEYUP, WM_LBUTTONDOWN,
    WM_LBUTTONUP, WM_MOUSEMOVE, WM_SYSKEYDOWN, WM_SYSKEYUP,
};
use platform_napi::keys::{VK_CONTROL, VK_PAUSE, VK_RCONTROL};

fn key(make_code: u16, flags: u16, vkey: u16, message: u32) -> RawKeyboard {
    RawKeyboard { make_code, flags, vkey, message }
}

#[test]
fn default_event_is_unknown_and_zero() {
    let e = InputEvent::default();
    assert_eq!(e.kind, RawEvent::UnKnown);
    assert_eq!(RawEvent::default(), RawEvent::UnKnown);
    assert_eq!((e.x, e.y, e.scancode, e.virtual_keycode, e.delta, e.modifiers), (0, 0, 0, 0, 0, 0));
}

#[test]
fn reverse_bits_matches_std() {
    assert_eq!(reverse_bits(1), 0x8000_0000);
    assert_eq!(reverse_bits(0x1E), 0x7800_0000);
    assert_eq!(reverse_bits(0), 0);
    assert_eq!(reverse_bits(u32::MAX), u32::MAX);
    let mut x: u32 = 0x1234_5678;
    for _ in 0..1000 {
        assert_eq!(reverse_bits(x), x.reverse_bits());
        assert_eq!(reverse_bits(reverse_bits(x)), x);
        x = x.wrapping_mul(2654435761).wrapping_add(12345);
    }
}

#[test]
fn key_message_lparam() {
    assert_eq!(keyboard_lparam(0x1E, true), 0x7900_0001);
    assert_eq!(keyboard_lparam(0x1E, false), 0xF900_0001);
    assert_eq!(keyboard_lparam(0, true), 0x0100_0001);
    for mc in [0u16, 1, 0x1E, 0x2A, 0x45, 0xFFFF] {
        for pressed in [true, false] {
            let l = keyboard_lparam(mc, pressed);
            assert_eq!(l & 1, 1);
            assert_eq!(l & 0x0100_0000, 0x0100_0000);
            if !pressed {
                assert_eq!(l & 0xC000_0000, 0xC000_0000);
            }
            // The same computation as written in the window procedure.
            let mut expected = (mc as u32).reverse_bits();
            expected |= 1_u32 | expected;
            expected |= 1_u32 << 24;
            if !pressed {
                expected |= 3_u32 << 30;
            }
            assert_eq!(l, expected);
        }
    }
}

#[test]
fn extended_flags_and_layout_scancode() {
    assert!(!keyboard_extended(0));
    assert!(keyboard_extended(2));
    assert!(keyboard_extended(4));
    assert!(keyboard_extended(1 | 4));
    assert!(!keyboard_extended(1));
    assert_eq!(layout_scancode(key(0x2A, 0, 0x10, WM_KEYDOWN)), 0x2A);
    assert_eq!(layout_scancode(key(0x1D, 2, 0x11, WM_KEYDOWN)), 0xE01D);
}

#[test]
fn key_press_and_release_become_events() {
    let shift = ModifiersState::SHIFT();
    let (event, forward) = translate_keyboard(key(0x1E, 0, 0x41, WM_KEYDOWN), 0, shift).unwrap();
    assert_eq!(event.kind, RawEvent::KeyDown);
    assert_eq!(event.scancode, 0x1E);
    assert_eq!(event.virtual_keycode, 0x41);
    assert_eq!(event.modifiers, 4);
    assert_eq!((event.x, event.y, event.delta), (0, 0, 0));
    assert_eq!(forward, PostedMessage { message: WM_KEYDOWN, wparam: 0x41, lparam: 0x7900_0001 });

    let (event, forward) =
        translate_keyboard(key(0x1E, 0, 0x41, WM_KEYUP), 0, ModifiersState::empty()).unwrap();
    assert_eq!(event.kind, RawEvent::KeyUp);
    assert_eq!(event.modifiers, 0);
    assert_eq!(forward.lparam, 0xF900_0001u32 as isize);

    let (event, _) =
        translate_keyboard(key(0x38, 0, 0x12, WM_SYSKEYDOWN), 0, ModifiersState::empty()).unwrap();
    assert_eq!(event.kind, RawEvent::KeyDown);
    let (event, _) =
        translate_keyboard(key(0x38, 0, 0x12, WM_SYSKEYUP), 0, ModifiersState::empty()).unwrap();
    assert_eq!(event.kind, RawEvent::KeyUp);
}

#[test]
fn extended_keys_report_their_side_and_forward_the_raw_key() {
    let (event, forward) =
        translate_keyboard(key(0x1D, 2, VK_CONTROL, WM_KEYDOWN), 0, ModifiersState::empty())
            .unwrap();
    assert_eq!(event.virtual_keycode, VK_RCONTROL as u32);
    assert_eq!(event.scancode, 0xE01D);
    assert_eq!(forward.wparam, VK_CONTROL as usize);
}

#[test]
fn other_messages_and_dropped_keys_give_nothing() {
    assert!(translate_keyboard(key(0x1E, 0, 0x41, 0x0102), 0, ModifiersState::empty()).is_none());
    assert!(translate_keyboard(key(0x1D, 2, VK_PAUSE, WM_KEYDOWN), 0, ModifiersState::empty())
        .is_none());
}

#[test]
fn wheel_delta_matches_float_division() {
    assert_eq!(wheel_delta(120), 1);
    assert_eq!(wheel_delta(240), 2);
    assert_eq!(wheel_delta((-120i16) as u16), -1);
    assert_eq!(wheel_delta(119), 0);
    assert_eq!(wheel_delta((-119i16) as u16), 0);
    assert_eq!(wheel_delta(32767), 273);
    assert_eq!(wheel_delta(0x8000), -273);
    for d in 0..=u16::MAX {
        let expected = (d as i16 as f32 / 120u32 as f32) as i32;
        assert_eq!(wheel_delta(d), expected, "data {}", d);
    }
}

#[test]
fn point_lparam_matches_the_shift_expression() {
    assert_eq!(point_lparam(10, 20), 1310730);
    assert_eq!(point_lparam(-1, 0), -1);
    for &(x, y) in &[(0i32, 0i32), (10, 20), (-1, 0), (1919, 1079), (-1920, 5), (3, -7), (65535, 65535), (i32::MIN, i32::MAX)] {
        let expected = (y << 16 | x) as isize;
        assert_eq!(point_lparam(x, y), expected);
    }
    let l = point_lparam(300, 200);
    assert_eq!(l & 0xFFFF, 300);
    assert_eq!((l >> 16) & 0xFFFF, 200);
}

#[test]
fn mouse_reports_become_events_and_messages() {
    let m = |flags: u16, data: u16| RawMouse { button_flags: flags, button_data: data };
    let (e, f) = translate_mouse(m(RI_MOUSE_LEFT_BUTTON_DOWN, 0), 5, 6);
    assert_eq!((e.kind, e.x, e.y), (RawEvent::MouseDown, 5, 6));
    assert_eq!(f, Some(PostedMessage { message: WM_LBUTTONDOWN, wparam: MK_LBUTTON, lparam: point_lparam(5, 6) }));
    let (e, f) = translate_mouse(m(RI_MOUSE_LEFT_BUTTON_UP, 0), 5, 6);
    assert_eq!(e.kind, RawEvent::MouseUp);
    assert_eq!(f.unwrap().message, WM_LBUTTONUP);
    let (e, f) = translate_mouse(m(RI_MOUSE_WHEEL, 240), 1, 2);
    assert_eq!((e.kind, e.delta), (RawEvent::MouseWheel, 2));
    assert_eq!(f, None);
    let (e, f) = translate_mouse(m(RI_MOUSE_RIGHT_BUTTON_DOWN, 0), 1, 2);
    assert_eq!((e.kind, e.delta), (RawEvent::MouseMove, 0));
    assert_eq!(f, None);
    let (_, f) = translate_mouse(m(RI_MOUSE_RIGHT_BUTTON_UP, 0), 1, 2);
    assert_eq!(f, None);
    let (e, f) = translate_mouse(m(0, 0), 7, 8);
    assert_eq!(e.kind, RawEvent::MouseMove);
    assert_eq!(f, Some(PostedMessage { message: WM_MOUSEMOVE, wparam: MK_MBUTTON, lparam: point_lparam(7, 8) }));
    // Combined flags count as a move.
    let (e, f) = translate_mouse(m(RI_MOUSE_LEFT_BUTTON_DOWN | RI_MOUSE_LEFT_BUTTON_UP, 0), 7, 8);
    assert_eq!(e.kind, RawEvent::MouseMove);
    assert_eq!(f.unwrap().message, WM_MOUSEMOVE);
}

#[test]
fn raw_input_helpers() {
    assert_eq!(raw_input_kind(0), RawInputKind::Mouse);
    assert_eq!(raw_input_kind(1), RawInputKind::Keyboard);
    assert_eq!(raw_input_kind(2), RawInputKind::Other);
    assert!(!raw_input_status_ok(u32::MAX));
    assert!(!raw_input_status_ok(0));
    assert!(raw_input_status_ok(48));
    assert_eq!(input_window_proc(WM_INPUT), Some(1));
    assert_eq!(input_window_proc(0x0010), None);
    assert_eq!(window_handle_from_u64(5), 5);
    assert_eq!(window_handle_from_u64(u64::MAX), -1);
}

#[test]
fn device_events_become_input_events() {
    let e = translate_device_event(DeviceEvent::MouseMove { x: 3, y: 4 });
    assert_eq!((e.kind, e.x, e.y), (RawEvent::MouseMove, 3, 4));
    let e = translate_device_event(DeviceEvent::Wheel { delta_x: 9, delta_y: -3 });
    assert_eq!((e.kind, e.delta, e.x), (RawEvent::MouseWheel, -3, 0));
    let e = translate_device_event(DeviceEvent::Wheel { delta_x: 0, delta_y: 0x1_0000_0005 });
    assert_eq!(e.delta, 5);
    let e = translate_device_event(DeviceEvent::KeyPress { code: Some(12) });
    assert_eq!((e.kind, e.virtual_keycode), (RawEvent::KeyDown, 12));
    let e = translate_device_event(DeviceEvent::KeyRelease { code: None });
    assert_eq!((e.kind, e.virtual_keycode), (RawEvent::KeyUp, 0));
    assert_eq!(translate_device_event(DeviceEvent::ButtonPress).kind, RawEvent::MouseDown);
    assert_eq!(translate_device_event(DeviceEvent::ButtonRelease).kind, RawEvent::MouseUp);
}

#[test]
fn interactive_window_registers_and_restores() {
    let mut w: InteractiveWindow<&str> = InteractiveWindow::new();
    assert!(w.callback().is_none());
    assert_eq!(w.window(), None);
    let press = key(0x1E, 0, 0x41, WM_KEYDOWN);
    match w.on_keyboard(press, 0, ModifiersState::empty()) {
        InputStep::Handled { notify, forward } => {
            assert!(notify.is_none());
            assert!(forward.is_some());
        }
        InputStep::Ignored => panic!("a key press is handled"),
    }
    w.setup_interactive_window(None, Some((41, false)));
    assert_eq!(w.window(), None);
    w.setup_interactive_window(Some("callback"), Some((42, true)));
    assert_eq!(w.callback(), Some(&"callback"));
    assert_eq!(w.window(), Some(42));
    let step = w.on_keyboard(press, 0, ModifiersState::empty());
    let forward = match step {
        InputStep::Handled { notify, forward } => {
            assert_eq!(notify.unwrap().virtual_keycode, 0x41);
            forward
        }
        InputStep::Ignored => panic!("a key press is handled"),
    };
    assert_eq!(w.forward_to(true, forward), Some((42, forward.unwrap())));
    assert_eq!(w.forward_to(false, forward), None);
    assert_eq!(w.forward_to(true, None), None);
    // What is not given stays.
    w.setup_interactive_window(None, None);
    assert_eq!(w.callback(), Some(&"callback"));
    assert_eq!(w.window(), Some(42));
    assert_eq!(w.on_device_event(DeviceEvent::ButtonPress).unwrap().kind, RawEvent::MouseDown);
    w.restore_interactive_window();
    assert!(w.callback().is_none());
    assert_eq!(w.window(), Some(42));
    assert_eq!(w.on_device_event(DeviceEvent::ButtonPress), None);
    // Without a cursor position a mouse report is ignored.
    let raw = RawMouse { button_flags: RI_MOUSE_LEFT_BUTTON_DOWN, button_data: 0 };
    assert_eq!(w.on_mouse(raw, None), InputStep::Ignored);
    match w.on_mouse(raw, Some((1, 2))) {
        InputStep::Handled { notify, forward } => {
            assert!(notify.is_none());
            assert_eq!(forward.unwrap().message, WM_LBUTTONDOWN);
        }
        InputStep::Ignored => panic!("a report with a position is handled"),
    }
    // A dropped key is ignored.
    assert_eq!(
        w.on_keyboard(key(0x1D, 2, VK_PAUSE, WM_KEYDOWN), 0, ModifiersState::empty()),
        InputStep::Ignored
    );
}
