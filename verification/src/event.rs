use vstd::prelude::*;

verus! {

/// The kind of an input event.
#[derive(Clone, Copy, Debug, PartialEq, Eq, Structural)]
pub enum RawEvent {
    KeyDown,
    KeyUp,
    MouseDown,
    MouseUp,
    MouseMove,
    MouseWheel,
    UnKnown,
}

impl Default for RawEvent {
    /// An event of unknown kind.
    fn default() -> (r: Self)
        ensures
            r == RawEvent::UnKnown,
    {
        RawEvent::UnKnown
    }
}

/// An input event as it is handed to the script side.
#[derive(Clone, Copy, Debug, PartialEq, Eq, Structural)]
pub struct InputEvent {
    pub kind: RawEvent,
    pub x: i32,
    pub y: i32,
    pub scancode: u32,
    pub virtual_keycode: u32,
    pub delta: i32,
    pub modifiers: u32,
}

/// The event with every field zero and an unknown kind.
pub open spec fn spec_default_event() -> InputEvent {
    InputEvent {
        kind: RawEvent::UnKnown,
        x: 0,
        y: 0,
        scancode: 0,
        virtual_keycode: 0,
        delta: 0,
        modifiers: 0,
    }
}

impl Default for InputEvent {
    /// The event with every field zero and an unknown kind.
    fn default() -> (r: Self)
        ensures
            r == spec_default_event(),
    {
        InputEvent {
            kind: RawEvent::default(),
            x: 0,
            y: 0,
            scancode: 0,
            virtual_keycode: 0,
            delta: 0,
            modifiers: 0,
        }
    }
}

} // verus!
