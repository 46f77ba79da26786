use vstd::prelude::*;
use crate::event::{InputEvent, RawEvent, spec_default_event};
use crate::flags::{has_flag, ModifiersState};
use crate::keys::{
    handle_extended_keys, spec_handle_extended_keys, extended_scancode, spec_extended_scancode,
};

verus! {

/// Message that carries raw input to the input window.
pub const WM_INPUT: u32 = 0x00FF;
/// Key-down message.
pub const WM_KEYDOWN: u32 = 0x0100;
/// Key-up message.
pub const WM_KEYUP: u32 = 0x0101;
/// Key-down message of a key pressed with alt or of F10.
pub const WM_SYSKEYDOWN: u32 = 0x0104;
/// Key-up message of a key pressed with alt or of F10.
pub const WM_SYSKEYUP: u32 = 0x0105;
/// Mouse-move message.
pub const WM_MOUSEMOVE: u32 = 0x0200;
/// Left-button-down message.
pub const WM_LBUTTONDOWN: u32 = 0x0201;
/// Left-button-up message.
pub const WM_LBUTTONUP: u32 = 0x0202;

/// Raw keyboard flag: the scancode has the `E0` prefix.
pub const RI_KEY_E0: u16 = 2;
/// Raw keyboard flag: the scancode has the `E1` prefix.
pub const RI_KEY_E1: u16 = 4;

/// Raw mouse button flag: left button pressed.
pub const RI_MOUSE_LEFT_BUTTON_DOWN: u16 = 0x0001;
/// Raw mouse button flag: left button released.
pub const RI_MOUSE_LEFT_BUTTON_UP: u16 = 0x0002;
/// Raw mouse button flag: right button pressed.
pub const RI_MOUSE_RIGHT_BUTTON_DOWN: u16 = 0x0004;
/// Raw mouse button flag: right button released.
pub const RI_MOUSE_RIGHT_BUTTON_UP: u16 = 0x0008;
/// Raw mouse button flag: the wheel turned.
pub const RI_MOUSE_WHEEL: u16 = 0x0400;
/// Wheel distance of one notch.
pub const WHEEL_DELTA: i32 = 120;

/// Raw input device type of a mouse.
pub const RIM_TYPEMOUSE: u32 = 0;
/// Raw input device type of a keyboard.
pub const RIM_TYPEKEYBOARD: u32 = 1;

/// Key-state bit of a mouse message: left button down.
pub const MK_LBUTTON: usize = 0x0001;
/// Key-state bit of a mouse message: middle button down.
pub const MK_MBUTTON: usize = 0x0020;

/// The fields of a raw keyboard report that the translation reads.
#[derive(Clone, Copy, Debug, PartialEq, Eq, Structural)]
pub struct RawKeyboard {
    pub make_code: u16,
    pub flags: u16,
    pub vkey: u16,
    pub message: u32,
}

/// The fields of a raw mouse report that the translation reads.
#[derive(Clone, Copy, Debug, PartialEq, Eq, Structural)]
pub struct RawMouse {
    pub button_flags: u16,
    pub button_data: u16,
}

/// A window message to post: message number and its two parameters.
#[derive(Clone, Copy, Debug, PartialEq, Eq, Structural)]
pub struct PostedMessage {
    pub message: u32,
    pub wparam: usize,
    pub lparam: isize,
}

/// What a raw input report amounts to.
#[derive(Clone, Copy, Debug, PartialEq, Eq, Structural)]
pub enum InputStep {
    /// Nothing is done with the report.
    Ignored,
    /// The report was translated: `notify` goes to the registered callback,
    /// and `forward`, if any, to the desktop's target window while the
    /// desktop is in front (see [`InteractiveWindow::forward_to`]).
    Handled { notify: Option<InputEvent>, forward: Option<PostedMessage> },
}

/// The bits of `x` below position `n`, mirrored: bit `i` moves to bit `31 - i`.
pub open spec fn spec_reverse_bits_upto(x: u32, n: u32) -> u32
    decreases n,
{
    if n == 0 || n > 32 {
        0
    } else {
        spec_reverse_bits_upto(x, (n - 1) as u32) | (((x >> ((n - 1) as u32)) & 1) << ((32
            - n) as u32))
    }
}

/// `x` with the order of its bits reversed.
pub open spec fn spec_reverse_bits(x: u32) -> u32 {
    spec_reverse_bits_upto(x, 32)
}

/// `x` with the order of its bits reversed: the least significant bit
/// becomes the most significant, and so on.
pub fn reverse_bits(x: u32) -> (r: u32)
    ensures
        r == spec_reverse_bits(x),
{
    let mut r: u32 = 0;
    let mut i: u32 = 0;
    while i < 32
        invariant
            i <= 32,
            r == spec_reverse_bits_upto(x, i),
        decreases 32 - i,
    {
        r = r | (((x >> i) & 1) << (31 - i));
        i = i + 1;
    }
    r
}

/// A key-down message.
pub open spec fn spec_is_press(message: u32) -> bool {
    message == WM_KEYDOWN || message == WM_SYSKEYDOWN
}

/// A key-up message.
pub open spec fn spec_is_release(message: u32) -> bool {
    message == WM_KEYUP || message == WM_SYSKEYUP
}

/// The key carries an `E0` or `E1` scancode prefix.
pub open spec fn spec_is_extended(flags: u16) -> bool {
    flags & RI_KEY_E0 == RI_KEY_E0 || flags & RI_KEY_E1 == RI_KEY_E1
}

/// Whether the raw keyboard flags mark an extended key (`E0` or `E1` prefix).
pub fn keyboard_extended(flags: u16) -> (r: bool)
    ensures
        r == spec_is_extended(flags),
{
    let e0 = has_flag(flags, RI_KEY_E0);
    let e1 = has_flag(flags, RI_KEY_E1);
    e0 || e1
}

/// The scancode that the keyboard layout is asked about for a raw keyboard
/// report: its make code, with the `E0` prefix where the key is extended.
pub fn layout_scancode(raw: RawKeyboard) -> (r: u32)
    ensures
        r == spec_extended_scancode(raw.make_code as u32, spec_is_extended(raw.flags)),
{
    extended_scancode(raw.make_code as u32, keyboard_extended(raw.flags))
}

/// The long parameter of a forwarded key message: the reversed make code,
/// with bit 0 and the repeat bit 24 set, and both transition bits 30 and 31
/// set for a release.
pub open spec fn spec_keyboard_lparam(make_code: u16, pressed: bool) -> u32 {
    spec_reverse_bits(make_code as u32) | 1 | (1u32 << 24u32) | (if pressed {
        0
    } else {
        3u32 << 30u32
    })
}

/// The long parameter of a forwarded key message.
pub fn keyboard_lparam(make_code: u16, pressed: bool) -> (r: u32)
    ensures
        r == spec_keyboard_lparam(make_code, pressed),
{
    let lparam = make_code as u32;
    let mut lparam = reverse_bits(lparam);
    let ghost rev = lparam;
    lparam |= 1u32 | lparam;
    lparam |= 1u32 << 24u32;
    lparam |= 0u32 << 29u32;
    let ghost base = lparam;
    assert(base == rev | 1 | (1u32 << 24u32)) by (bit_vector)
        requires
            base == ((rev | (1u32 | rev)) | (1u32 << 24u32)) | (0u32 << 29u32),
    ;
    if !pressed {
        lparam |= 3u32 << 30u32;
    } else {
        assert(base == base | 0u32) by (bit_vector);
    }
    lparam
}

/// The event and the forwarded message that a raw keyboard report stands
/// for, or `None` where it is neither a press nor a release or where the key
/// handling drops it. `layout_vkey` is what the layout maps
/// `layout_scancode(raw)` to, and `modifiers` the modifier bits held.
pub open spec fn spec_translate_keyboard(raw: RawKeyboard, layout_vkey: u32, modifiers: u32) -> Option<
    (InputEvent, PostedMessage),
> {
    let pressed = spec_is_press(raw.message);
    let released = spec_is_release(raw.message);
    if !(pressed || released) {
        None
    } else {
        match spec_handle_extended_keys(
            raw.vkey,
            raw.make_code as u32,
            spec_is_extended(raw.flags),
            layout_vkey,
        ) {
            None => None,
            Some((vkey, scancode)) => Some(
                (
                    InputEvent {
                        kind: if pressed {
                            RawEvent::KeyDown
                        } else {
                            RawEvent::KeyUp
                        },
                        scancode,
                        virtual_keycode: vkey as u32,
                        modifiers,
                        ..spec_default_event()
                    },
                    PostedMessage {
                        message: raw.message,
                        wparam: raw.vkey as usize,
                        lparam: spec_keyboard_lparam(raw.make_code, pressed) as isize,
                    },
                ),
            ),
        }
    }
}

/// Translates a raw keyboard report into the event for the script side and
/// the key message to forward to the desktop's target window.
pub fn translate_keyboard(raw: RawKeyboard, layout_vkey: u32, modifiers: ModifiersState) -> (r:
    Option<(InputEvent, PostedMessage)>)
    ensures
        r == spec_translate_keyboard(raw, layout_vkey, modifiers@),
{
    let pressed = raw.message == WM_KEYDOWN || raw.message == WM_SYSKEYDOWN;
    let released = raw.message == WM_KEYUP || raw.message == WM_SYSKEYUP;
    if !(pressed || released) {
        return None;
    }
    let scancode = raw.make_code;
    let extended = keyboard_extended(raw.flags);
    let kind = if pressed {
        RawEvent::KeyDown
    } else {
        RawEvent::KeyUp
    };
    match handle_extended_keys(raw.vkey, scancode as u32, extended, layout_vkey) {
        None => None,
        Some((vkey, scancode)) => {
            let mut event = InputEvent::default();
            event.kind = kind;
            event.scancode = scancode;
            event.virtual_keycode = vkey as u32;
            event.modifiers = modifiers.bits();
            let lparam = keyboard_lparam(raw.make_code, pressed);
            let forward = PostedMessage {
                message: raw.message,
                wparam: raw.vkey as usize,
                lparam: lparam as isize,
            };
            Some((event, forward))
        },
    }
}

/// The wheel distance in notches: the signed wheel data divided by
/// [`WHEEL_DELTA`], the fraction cut toward zero.
pub open spec fn spec_wheel_delta(button_data: u16) -> int {
    let d = (button_data as i16) as int;
    if d >= 0 {
        d / 120
    } else {
        -((-d) / 120)
    }
}

/// The wheel distance in notches, cut toward zero, of a raw wheel report.
pub fn wheel_delta(button_data: u16) -> (r: i32)
    ensures
        r == spec_wheel_delta(button_data),
        -273 <= r <= 273,
        (r > 0 ==> (button_data as i16) > 0) && (r < 0 ==> (button_data as i16) < 0),
{
    let d = button_data as i16 as i32;
    if d >= 0 {
        d / WHEEL_DELTA
    } else {
        -((-d) / WHEEL_DELTA)
    }
}

/// The long parameter of a mouse message: `y` in the high and `x` in the low
/// 16 bits, as a 32-bit signed word (`y << 16 | x`).
pub open spec fn spec_point_lparam(x: i32, y: i32) -> isize {
    ((((y as u32) << 16u32) | (x as u32)) as i32) as isize
}

/// The long parameter of a mouse message at the point `(x, y)`.
pub fn point_lparam(x: i32, y: i32) -> (r: isize)
    ensures
        r == spec_point_lparam(x, y),
{
    let packed: u32 = ((y as u32) << 16u32) | (x as u32);
    packed as i32 as isize
}

/// The event kind of a raw mouse report.
pub open spec fn spec_mouse_kind(button_flags: u16) -> RawEvent {
    if button_flags == RI_MOUSE_LEFT_BUTTON_DOWN {
        RawEvent::MouseDown
    } else if button_flags == RI_MOUSE_LEFT_BUTTON_UP {
        RawEvent::MouseUp
    } else if button_flags == RI_MOUSE_WHEEL {
        RawEvent::MouseWheel
    } else {
        RawEvent::MouseMove
    }
}

/// The event of a raw mouse report with the cursor at `(x, y)`.
pub open spec fn spec_mouse_event(raw: RawMouse, x: i32, y: i32) -> InputEvent {
    InputEvent {
        kind: spec_mouse_kind(raw.button_flags),
        x,
        y,
        delta: if raw.button_flags == RI_MOUSE_WHEEL {
            spec_wheel_delta(raw.button_data) as i32
        } else {
            0
        },
        ..spec_default_event()
    }
}

/// The mouse message to forward for a raw mouse report with the cursor at
/// `(x, y)`: left button up and down and plain moves are forwarded, wheel
/// and right-button reports are not.
pub open spec fn spec_mouse_forward(raw: RawMouse, x: i32, y: i32) -> Option<PostedMessage> {
    let f = raw.button_flags;
    let lparam = spec_point_lparam(x, y);
    if f == RI_MOUSE_LEFT_BUTTON_UP {
        Some(PostedMessage { message: WM_LBUTTONUP, wparam: MK_LBUTTON, lparam })
    } else if f == RI_MOUSE_LEFT_BUTTON_DOWN {
        Some(PostedMessage { message: WM_LBUTTONDOWN, wparam: MK_LBUTTON, lparam })
    } else if f == RI_MOUSE_WHEEL || f == RI_MOUSE_RIGHT_BUTTON_DOWN || f
        == RI_MOUSE_RIGHT_BUTTON_UP {
        None
    } else {
        Some(PostedMessage { message: WM_MOUSEMOVE, wparam: MK_MBUTTON, lparam })
    }
}

/// Translates a raw mouse report, with the cursor at `(x, y)`, into the event
/// for the script side and the mouse message, if any, to forward.
pub fn translate_mouse(raw: RawMouse, x: i32, y: i32) -> (r: (InputEvent, Option<PostedMessage>))
    ensures
        r.0 == spec_mouse_event(raw, x, y),
        r.1 == spec_mouse_forward(raw, x, y),
{
    let f = raw.button_flags;
    let mut event = InputEvent::default();
    event.x = x;
    event.y = y;
    if f == RI_MOUSE_LEFT_BUTTON_DOWN {
        event.kind = RawEvent::MouseDown;
    } else if f == RI_MOUSE_LEFT_BUTTON_UP {
        event.kind = RawEvent::MouseUp;
    } else if f == RI_MOUSE_WHEEL {
        event.kind = RawEvent::MouseWheel;
        event.delta = wheel_delta(raw.button_data);
    } else {
        event.kind = RawEvent::MouseMove;
    }
    let lparam = point_lparam(x, y);
    let forward = if f == RI_MOUSE_LEFT_BUTTON_UP {
        Some(PostedMessage { message: WM_LBUTTONUP, wparam: MK_LBUTTON, lparam })
    } else if f == RI_MOUSE_LEFT_BUTTON_DOWN {
        Some(PostedMessage { message: WM_LBUTTONDOWN, wparam: MK_LBUTTON, lparam })
    } else if f == RI_MOUSE_WHEEL || f == RI_MOUSE_RIGHT_BUTTON_DOWN || f
        == RI_MOUSE_RIGHT_BUTTON_UP {
        None
    } else {
        Some(PostedMessage { message: WM_MOUSEMOVE, wparam: MK_MBUTTON, lparam })
    };
    (event, forward)
}

/// The kind of device a raw input report comes from.
#[derive(Clone, Copy, Debug, PartialEq, Eq, Structural)]
pub enum RawInputKind {
    Mouse,
    Keyboard,
    Other,
}

/// The kind of device that a raw input header's type names.
pub fn raw_input_kind(device_type: u32) -> (r: RawInputKind)
    ensures
        r == (if device_type == RIM_TYPEMOUSE {
            RawInputKind::Mouse
        } else if device_type == RIM_TYPEKEYBOARD {
            RawInputKind::Keyboard
        } else {
            RawInputKind::Other
        }),
{
    if device_type == RIM_TYPEMOUSE {
        RawInputKind::Mouse
    } else if device_type == RIM_TYPEKEYBOARD {
        RawInputKind::Keyboard
    } else {
        RawInputKind::Other
    }
}

/// Whether the status of a raw input read reports data: neither the error
/// value (all bits set) nor zero bytes.
pub fn raw_input_status_ok(status: u32) -> (r: bool)
    ensures
        r == (status != u32::MAX && status != 0),
{
    !(status == u32::MAX || status == 0)
}

/// The answer of the input window's procedure to a message: `Some(result)`
/// where it handles the message itself (raw input, answered 1), `None` where
/// the default procedure answers.
pub fn input_window_proc(message: u32) -> (r: Option<isize>)
    ensures
        r == (if message == WM_INPUT {
            Some(1isize)
        } else {
            None::<isize>
        }),
{
    if message == WM_INPUT {
        Some(1)
    } else {
        None
    }
}

/// The window handle that a 64-bit integer from the script side stands for.
pub fn window_handle_from_u64(raw: u64) -> (r: isize)
    ensures
        r == raw as isize,
{
    raw as isize
}

/// An event of the cross-platform input hook, with its positions already
/// in whole pixels and its keys already turned into key codes (`None`: the
/// key has no code).
#[derive(Clone, Copy, Debug, PartialEq, Eq, Structural)]
pub enum DeviceEvent {
    KeyPress { code: Option<u32> },
    KeyRelease { code: Option<u32> },
    ButtonPress,
    ButtonRelease,
    MouseMove { x: i32, y: i32 },
    Wheel { delta_x: i64, delta_y: i64 },
}

/// The input event that a hook event stands for. Buttons are not told
/// apart; a key without a code reports code 0; the wheel reports its
/// vertical distance, cut to 32 bits.
pub open spec fn spec_device_event(e: DeviceEvent) -> InputEvent {
    match e {
        DeviceEvent::MouseMove { x, y } => InputEvent {
            kind: RawEvent::MouseMove,
            x,
            y,
            ..spec_default_event()
        },
        DeviceEvent::Wheel { delta_x, delta_y } => InputEvent {
            kind: RawEvent::MouseWheel,
            delta: delta_y as i32,
            ..spec_default_event()
        },
        DeviceEvent::ButtonPress => InputEvent { kind: RawEvent::MouseDown, ..spec_default_event() },
        DeviceEvent::ButtonRelease => InputEvent { kind: RawEvent::MouseUp, ..spec_default_event() },
        DeviceEvent::KeyPress { code } => InputEvent {
            kind: RawEvent::KeyDown,
            virtual_keycode: match code {
                Some(c) => c,
                None => 0,
            },
            ..spec_default_event()
        },
        DeviceEvent::KeyRelease { code } => InputEvent {
            kind: RawEvent::KeyUp,
            virtual_keycode: match code {
                Some(c) => c,
                None => 0,
            },
            ..spec_default_event()
        },
    }
}

/// The input event that a hook event stands for.
pub fn translate_device_event(e: DeviceEvent) -> (r: InputEvent)
    ensures
        r == spec_device_event(e),
{
    let mut event = InputEvent::default();
    match e {
        DeviceEvent::MouseMove { x, y } => {
            event.kind = RawEvent::MouseMove;
            event.x = x;
            event.y = y;
        },
        DeviceEvent::Wheel { delta_x, delta_y } => {
            event.kind = RawEvent::MouseWheel;
            event.delta = delta_y as i32;
        },
        DeviceEvent::ButtonPress => {
            event.kind = RawEvent::MouseDown;
        },
        DeviceEvent::ButtonRelease => {
            event.kind = RawEvent::MouseUp;
        },
        DeviceEvent::KeyPress { code } => {
            event.kind = RawEvent::KeyDown;
            event.virtual_keycode = code.unwrap_or(0u32);
        },
        DeviceEvent::KeyRelease { code } => {
            event.kind = RawEvent::KeyUp;
            event.virtual_keycode = code.unwrap_or(0u32);
        },
    }
    event
}

/// What a raw keyboard report amounts to, given whether a callback is
/// registered: nothing where [`translate_keyboard`] drops it, else its event
/// (where a callback is registered) and its key message.
pub open spec fn spec_keyboard_step(
    has_callback: bool,
    raw: RawKeyboard,
    layout_vkey: u32,
    modifiers: u32,
) -> InputStep {
    match spec_translate_keyboard(raw, layout_vkey, modifiers) {
        None => InputStep::Ignored,
        Some((event, forward)) => InputStep::Handled {
            notify: if has_callback {
                Some(event)
            } else {
                None
            },
            forward: Some(forward),
        },
    }
}

/// What a raw mouse report amounts to, given whether a callback is
/// registered and the cursor position where it could be read: nothing
/// without a position, else its event (where a callback is registered) and
/// its mouse message, if any.
pub open spec fn spec_mouse_step(has_callback: bool, raw: RawMouse, cursor: Option<(i32, i32)>) -> InputStep {
    match cursor {
        None => InputStep::Ignored,
        Some((x, y)) => InputStep::Handled {
            notify: if has_callback {
                Some(spec_mouse_event(raw, x, y))
            } else {
                None
            },
            forward: spec_mouse_forward(raw, x, y),
        },
    }
}

/// The state of the interactive window: the callback that receives input
/// events and the window that input is forwarded to while the desktop is
/// in front.
pub struct InteractiveWindow<C> {
    callback: Option<C>,
    window: Option<isize>,
}

impl<C> InteractiveWindow<C> {
    /// The registered callback.
    pub closed spec fn spec_callback(&self) -> Option<C> {
        self.callback
    }

    /// The window that input is forwarded to.
    pub closed spec fn spec_window(&self) -> Option<isize> {
        self.window
    }

    /// No callback and no window.
    pub fn new() -> (r: Self)
        ensures
            r.spec_callback() is None,
            r.spec_window() is None,
    {
        InteractiveWindow { callback: None, window: None }
    }

    /// Registers `callback`, where one is given, and the window handle of
    /// `window`, where one is given together with the fact that it names a
    /// live window; what is not given stays.
    pub fn setup_interactive_window(&mut self, callback: Option<C>, window: Option<(isize, bool)>)
        ensures
            final(self).spec_callback() == (if callback is Some {
                callback
            } else {
                old(self).spec_callback()
            }),
            final(self).spec_window() == (match window {
                Some((handle, true)) => Some(handle),
                _ => old(self).spec_window(),
            }),
    {
        if callback.is_some() {
            self.callback = callback;
        }
        if let Some((handle, is_window)) = window {
            if is_window {
                self.window = Some(handle);
            }
        }
    }

    /// Drops the callback; the window stays.
    pub fn restore_interactive_window(&mut self)
        ensures
            final(self).spec_callback() is None,
            final(self).spec_window() == old(self).spec_window(),
    {
        if self.callback.is_some() {
            self.callback = None;
        }
    }

    /// The registered callback.
    pub fn callback(&self) -> (r: Option<&C>)
        ensures
            r matches Some(c) ==> self.spec_callback() == Some(*c),
            r is None <==> self.spec_callback() is None,
    {
        self.callback.as_ref()
    }

    /// The window that input is forwarded to.
    pub fn window(&self) -> (r: Option<isize>)
        ensures
            r == self.spec_window(),
    {
        self.window
    }

    /// What a raw keyboard report amounts to: nothing where
    /// [`translate_keyboard`] drops it, else its event (where a callback is
    /// registered) and its key message.
    pub fn on_keyboard(&self, raw: RawKeyboard, layout_vkey: u32, modifiers: ModifiersState) -> (r:
        InputStep)
        ensures
            r == spec_keyboard_step(self.spec_callback() is Some, raw, layout_vkey, modifiers@),
    {
        match translate_keyboard(raw, layout_vkey, modifiers) {
            None => InputStep::Ignored,
            Some((event, forward)) => {
                let notify = if self.callback.is_some() {
                    Some(event)
                } else {
                    None
                };
                InputStep::Handled { notify, forward: Some(forward) }
            },
        }
    }

    /// What a raw mouse report amounts to, given the cursor position where
    /// it could be read: nothing without a position, else its event (where
    /// a callback is registered) and its mouse message, if any.
    pub fn on_mouse(&self, raw: RawMouse, cursor: Option<(i32, i32)>) -> (r: InputStep)
        ensures
            r == spec_mouse_step(self.spec_callback() is Some, raw, cursor),
    {
        match cursor {
            None => InputStep::Ignored,
            Some((x, y)) => {
                let (event, forward) = translate_mouse(raw, x, y);
                let notify = if self.callback.is_some() {
                    Some(event)
                } else {
                    None
                };
                InputStep::Handled { notify, forward }
            },
        }
    }

    /// The event for the registered callback that a hook event stands for;
    /// `None` without a callback.
    pub fn on_device_event(&self, e: DeviceEvent) -> (r: Option<InputEvent>)
        ensures
            r == (if self.spec_callback() is Some {
                Some(spec_device_event(e))
            } else {
                None::<InputEvent>
            }),
    {
        let event = translate_device_event(e);
        if self.callback.is_some() {
            Some(event)
        } else {
            None
        }
    }

    /// Where to post `message`: to the registered window, while the desktop
    /// is in front and there is a message.
    pub fn forward_to(&self, desktop_in_front: bool, message: Option<PostedMessage>) -> (r: Option<
        (isize, PostedMessage),
    >)
        ensures
            r == (if desktop_in_front && self.spec_window() is Some && message is Some {
                Some((self.spec_window()->0, message->0))
            } else {
                None::<(isize, PostedMessage)>
            }),
    {
        if desktop_in_front {
            match (self.window, message) {
                (Some(w), Some(m)) => Some((w, m)),
                _ => None,
            }
        } else {
            None
        }
    }
}

/// Without a registered callback (as after restoring the window) no event
/// is handed out, while what is forwarded stays as it would be with one.
pub proof fn law_no_callback_no_events(
    raw_key: RawKeyboard,
    layout_vkey: u32,
    modifiers: u32,
    raw_mouse: RawMouse,
    cursor: Option<(i32, i32)>,
)
    ensures
        spec_keyboard_step(false, raw_key, layout_vkey, modifiers) matches InputStep::Handled {
            notify,
            ..
        } ==> notify is None,
        spec_keyboard_step(true, raw_key, layout_vkey, modifiers) matches InputStep::Handled {
            forward: f1,
            ..
        } ==> spec_keyboard_step(false, raw_key, layout_vkey, modifiers) matches InputStep::Handled {
            forward: f2,
            ..
        } && f1 == f2,
        spec_mouse_step(false, raw_mouse, cursor) matches InputStep::Handled { notify, .. }
            ==> notify is None,
        spec_mouse_step(true, raw_mouse, cursor) matches InputStep::Handled { forward: f1, .. }
            ==> spec_mouse_step(false, raw_mouse, cursor) matches InputStep::Handled {
            forward: f2,
            ..
        } && f1 == f2,
{
}

/// A forwarded key message always has bit 0 and the repeat-count bit 24 of
/// its long parameter set, and both transition bits 30 and 31 for a release.
pub proof fn law_keyboard_lparam_bits(make_code: u16, pressed: bool)
    ensures
        spec_keyboard_lparam(make_code, pressed) & 1 == 1,
        spec_keyboard_lparam(make_code, pressed) & 0x0100_0000 == 0x0100_0000,
        !pressed ==> spec_keyboard_lparam(make_code, pressed) & 0xC000_0000 == 0xC000_0000,
{
    let rev = spec_reverse_bits(make_code as u32);
    let l = spec_keyboard_lparam(make_code, pressed);
    assert(l & 1 == 1 && l & 0x0100_0000 == 0x0100_0000) by (bit_vector)
        requires
            l == rev | 1 | (1u32 << 24u32) | (if pressed {
                0
            } else {
                3u32 << 30u32
            }),
    ;
    assert(!pressed ==> l & 0xC000_0000 == 0xC000_0000) by (bit_vector)
        requires
            l == rev | 1 | (1u32 << 24u32) | (if pressed {
                0
            } else {
                3u32 << 30u32
            }),
    ;
}

/// For a point with a non-negative `x` below 65536, a mouse message's long
/// parameter carries `x` in its low 16 bits and the low 16 bits of `y` in its
/// high 16 bits.
pub proof fn law_point_lparam_halves(x: i32, y: i32)
    requires
        0 <= x < 0x10000,
    ensures
        (((y as u32) << 16u32) | (x as u32)) & 0xFFFF == x,
        (((y as u32) << 16u32) | (x as u32)) >> 16u32 == (y as u32) & 0xFFFF,
        spec_point_lparam(x, y) == ((((y as u32) << 16u32) | (x as u32)) as i32) as isize,
{
    let xu = x as u32;
    let yu = y as u32;
    assert(xu < 0x10000);
    assert(((yu << 16u32) | xu) & 0xFFFF == xu && ((yu << 16u32) | xu) >> 16u32 == yu & 0xFFFF)
        by (bit_vector)
        requires
            xu < 0x10000,
    ;
}

/// The press and the release of a key (a key-down and a key-up report that
/// differ in nothing else) report the same key and scancode, as a key-down
/// and a key-up event, and forward long parameters that differ at most in
/// the two transition bits.
pub proof fn law_press_and_release_agree(
    press: RawKeyboard,
    release: RawKeyboard,
    layout_vkey: u32,
    modifiers: u32,
)
    requires
        press.message == WM_KEYDOWN,
        release.message == WM_KEYUP,
        press.make_code == release.make_code,
        press.flags == release.flags,
        press.vkey == release.vkey,
    ensures
        spec_translate_keyboard(press, layout_vkey, modifiers) is Some <==> spec_translate_keyboard(
            release,
            layout_vkey,
            modifiers,
        ) is Some,
        spec_translate_keyboard(press, layout_vkey, modifiers) matches Some((e1, f1))
            ==> spec_translate_keyboard(release, layout_vkey, modifiers) matches Some((e2, f2)) && {
            &&& e1.kind == RawEvent::KeyDown && e2.kind == RawEvent::KeyUp
            &&& e1.virtual_keycode == e2.virtual_keycode && e1.scancode == e2.scancode
            &&& e1.modifiers == e2.modifiers
            &&& f1.wparam == f2.wparam
            &&& spec_keyboard_lparam(press.make_code, true) | 0xC000_0000
                == spec_keyboard_lparam(release.make_code, false)
        },
{
    let rev = spec_reverse_bits(press.make_code as u32);
    assert((rev | 1 | (1u32 << 24u32) | 0u32) | 0xC000_0000 == rev | 1 | (1u32 << 24u32) | (3u32
        << 30u32)) by (bit_vector);
}

/// A translated key report forwards its own message and virtual key, carries
/// the modifiers held, is a key-down event for a press and a key-up event
/// for a release, and reports the key and scancode that the key handling
/// gives; only presses and releases that the key handling keeps are
/// translated.
pub proof fn law_keyboard_forwards_the_raw_message(
    raw: RawKeyboard,
    layout_vkey: u32,
    modifiers: u32,
)
    ensures
        spec_translate_keyboard(raw, layout_vkey, modifiers) is Some <==> ((spec_is_press(
            raw.message,
        ) || spec_is_release(raw.message)) && spec_handle_extended_keys(
            raw.vkey,
            raw.make_code as u32,
            spec_is_extended(raw.flags),
            layout_vkey,
        ) is Some),
        spec_translate_keyboard(raw, layout_vkey, modifiers) matches Some((e, f)) ==> {
            &&& f.message == raw.message
            &&& f.wparam == raw.vkey as usize
            &&& e.modifiers == modifiers
            &&& (e.kind == RawEvent::KeyDown <==> spec_is_press(raw.message))
            &&& (e.kind == RawEvent::KeyUp <==> !spec_is_press(raw.message))
            &&& spec_handle_extended_keys(
                raw.vkey,
                raw.make_code as u32,
                spec_is_extended(raw.flags),
                layout_vkey,
            ) == Some((e.virtual_keycode as u16, e.scancode))
            &&& e.virtual_keycode < 0x10000
            &&& e.x == 0 && e.y == 0 && e.delta == 0
        },
{
}

/// Every mouse event carries the cursor position; only a wheel report has a
/// wheel distance, and a forwarded mouse message packs the same position.
pub proof fn law_mouse_event_carries_the_cursor(raw: RawMouse, x: i32, y: i32)
    ensures
        spec_mouse_event(raw, x, y).x == x,
        spec_mouse_event(raw, x, y).y == y,
        raw.button_flags != RI_MOUSE_WHEEL ==> spec_mouse_event(raw, x, y).delta == 0,
        raw.button_flags == RI_MOUSE_WHEEL ==> spec_mouse_event(raw, x, y).delta
            == spec_wheel_delta(raw.button_data),
        spec_mouse_event(raw, x, y).scancode == 0 && spec_mouse_event(raw, x, y).virtual_keycode
            == 0 && spec_mouse_event(raw, x, y).modifiers == 0,
        spec_mouse_forward(raw, x, y) matches Some(f) ==> f.lparam == spec_point_lparam(x, y),
{
}

/// A key keeps its code whether it is pressed or released, a key without a
/// code reports 0, and a move reports its position.
pub proof fn law_device_keys_keep_their_code(code: u32, x: i32, y: i32)
    ensures
        spec_device_event(DeviceEvent::KeyPress { code: Some(code) }).virtual_keycode == code,
        spec_device_event(DeviceEvent::KeyRelease { code: Some(code) }).virtual_keycode == code,
        spec_device_event(DeviceEvent::KeyPress { code: Some(code) }).kind == RawEvent::KeyDown,
        spec_device_event(DeviceEvent::KeyRelease { code: Some(code) }).kind == RawEvent::KeyUp,
        spec_device_event(DeviceEvent::KeyPress { code: None }).virtual_keycode == 0,
        spec_device_event(DeviceEvent::KeyRelease { code: None }).virtual_keycode == 0,
        spec_device_event(DeviceEvent::MouseMove { x, y }).x == x,
        spec_device_event(DeviceEvent::MouseMove { x, y }).y == y,
{
}

/// A left-button press and its release at the same position are reported as
/// a button-down and a button-up event there, and forwarded as the left
/// button's down and up messages with the same parameters; wheel and
/// right-button reports are not forwarded.
pub proof fn law_left_button_press_and_release(x: i32, y: i32, data: u16)
    ensures
        ({
            let down = RawMouse { button_flags: RI_MOUSE_LEFT_BUTTON_DOWN, button_data: data };
            let up = RawMouse { button_flags: RI_MOUSE_LEFT_BUTTON_UP, button_data: data };
            &&& spec_mouse_event(down, x, y).kind == RawEvent::MouseDown
            &&& spec_mouse_event(up, x, y).kind == RawEvent::MouseUp
            &&& spec_mouse_forward(down, x, y) == Some(
                PostedMessage { message: WM_LBUTTONDOWN, wparam: MK_LBUTTON, lparam: spec_point_lparam(x, y) },
            )
            &&& spec_mouse_forward(up, x, y) == Some(
                PostedMessage { message: WM_LBUTTONUP, wparam: MK_LBUTTON, lparam: spec_point_lparam(x, y) },
            )
        }),
        spec_mouse_forward(RawMouse { button_flags: RI_MOUSE_WHEEL, button_data: data }, x, y) is None,
        spec_mouse_forward(RawMouse { button_flags: RI_MOUSE_RIGHT_BUTTON_DOWN, button_data: data }, x, y) is None,
        spec_mouse_forward(RawMouse { button_flags: RI_MOUSE_RIGHT_BUTTON_UP, button_data: data }, x, y) is None,
{
}

} // verus!
