use vstd::prelude::*;
use crate::wide::{encode_wide, spec_utf16};

verus! {

/// The system asks whether the session may end.
pub const WM_QUERYENDSESSION: u32 = 0x0011;
/// The system tells whether the session ends.
pub const WM_ENDSESSION: u32 = 0x0016;
/// The shutdown priority that the process asks for: the highest one an
/// application may take, so that it is asked first.
pub const SHUTDOWN_LEVEL: u32 = 0x3FF;
/// The shutdown flags that the process asks for: none.
pub const SHUTDOWN_FLAGS: u32 = 0;

/// What to tell the system while the blocker is set up: the window that
/// holds the blocking reason, the reason as a NUL-terminated wide string,
/// and the shutdown parameters of the process.
#[derive(Debug, PartialEq, Eq)]
pub struct BlockRequest {
    pub window: isize,
    pub reason: Vec<u16>,
    pub level: u32,
    pub flags: u32,
}

/// What the blocker's window procedure does with a message: whether the
/// callback is told that the session may end, and the answer, where the
/// procedure answers itself (`None`: the default procedure answers).
#[derive(Clone, Copy, Debug, PartialEq, Eq, Structural)]
pub struct ShutdownReply {
    pub notify: bool,
    pub result: Option<isize>,
}

/// What the blocker's window procedure does with `message`, given whether
/// shutdown is refused and whether a callback is registered.
pub open spec fn spec_shutdown_reply(
    should_block: bool,
    has_callback: bool,
    message: u32,
    wparam: usize,
) -> ShutdownReply {
    if message == WM_QUERYENDSESSION {
        ShutdownReply {
            notify: has_callback,
            result: Some(
                if should_block {
                    0isize
                } else {
                    1isize
                },
            ),
        }
    } else if message == WM_ENDSESSION && wparam == 0 {
        ShutdownReply { notify: false, result: Some(0isize) }
    } else {
        ShutdownReply { notify: false, result: None }
    }
}

/// The shutdown blocker: the hidden window that carries the blocking
/// reason (0 until one is made), whether shutdown is to be refused, and the
/// callback told of shutdown queries.
pub struct ShutdownBlocker<C> {
    window: isize,
    should_block: bool,
    callback: Option<C>,
}

impl<C> ShutdownBlocker<C> {
    /// The window that carries the blocking reason; 0 before one is made.
    pub closed spec fn spec_window(&self) -> isize {
        self.window
    }

    /// Whether shutdown queries are refused.
    pub closed spec fn spec_should_block(&self) -> bool {
        self.should_block
    }

    /// The callback told of shutdown queries.
    pub closed spec fn spec_callback(&self) -> Option<C> {
        self.callback
    }

    /// No window, no blocking, no callback.
    pub fn new() -> (r: Self)
        ensures
            r.spec_window() == 0,
            !r.spec_should_block(),
            r.spec_callback() is None,
    {
        ShutdownBlocker { window: 0, should_block: false, callback: None }
    }

    /// Whether a window has to be made before blocking: there is none yet.
    pub fn needs_window(&self) -> (r: bool)
        ensures
            r == (self.spec_window() == 0),
    {
        self.window == 0
    }

    /// The window that carries the blocking reason.
    pub fn window(&self) -> (r: isize)
        ensures
            r == self.spec_window(),
    {
        self.window
    }

    /// The callback told of shutdown queries.
    pub fn callback(&self) -> (r: Option<&C>)
        ensures
            r matches Some(c) ==> self.spec_callback() == Some(*c),
            r is None <==> self.spec_callback() is None,
    {
        self.callback.as_ref()
    }

    /// Starts refusing shutdown with `reason`. `new_window` is the window made
    /// for the blocker where [`Self::needs_window`] held, and is taken only
    /// then; `callback` replaces the callback where it is given. Returns what
    /// to tell the system.
    pub fn create_shutdown_blocker(&mut self, new_window: isize, callback: Option<C>, reason: &str) -> (r:
        BlockRequest)
        ensures
            final(self).spec_window() == (if old(self).spec_window() == 0 {
                new_window
            } else {
                old(self).spec_window()
            }),
            final(self).spec_should_block(),
            final(self).spec_callback() == (if callback is Some {
                callback
            } else {
                old(self).spec_callback()
            }),
            r.window == final(self).spec_window(),
            r.reason@ == spec_utf16(reason@).push(0),
            r.level == SHUTDOWN_LEVEL,
            r.flags == SHUTDOWN_FLAGS,
    {
        if self.window == 0 {
            self.window = new_window;
        }
        if callback.is_some() {
            self.callback = callback;
        }
        let reason = encode_wide(reason);
        self.should_block = true;
        BlockRequest { window: self.window, reason, level: SHUTDOWN_LEVEL, flags: SHUTDOWN_FLAGS }
    }

    /// Stops refusing shutdown and drops the callback. Returns the window
    /// whose blocking reason is withdrawn and which is destroyed; the blocker
    /// keeps its handle.
    pub fn destroy_shutdown_blocker(&mut self) -> (r: isize)
        ensures
            r == old(self).spec_window(),
            final(self).spec_window() == old(self).spec_window(),
            !final(self).spec_should_block(),
            final(self).spec_callback() is None,
    {
        self.should_block = false;
        self.callback = None;
        self.window
    }

    /// What the blocker's window procedure does with `message`: a shutdown
    /// query is told to the callback, where there is one, and answered 0
    /// (refused) while blocking, 1 otherwise; the end of a session that does
    /// not end (`wparam` 0) is answered 0; the default procedure answers
    /// everything else.
    pub fn window_proc(&self, message: u32, wparam: usize) -> (r: ShutdownReply)
        ensures
            r == spec_shutdown_reply(
                self.spec_should_block(),
                self.spec_callback() is Some,
                message,
                wparam,
            ),
    {
        if message == WM_QUERYENDSESSION {
            let notify = self.callback.is_some();
            if self.should_block {
                return ShutdownReply { notify, result: Some(0) };
            }
            return ShutdownReply { notify, result: Some(1) };
        } else if message == WM_ENDSESSION {
            if wparam == 0 {
                return ShutdownReply { notify: false, result: Some(0) };
            }
        }
        ShutdownReply { notify: false, result: None }
    }
}

/// Once the blocker is set up, the system's question whether the session may
/// end is refused (answered 0), and the registered callback, if any, is told.
pub proof fn law_blocker_refuses_shutdown<C>(
    before: ShutdownBlocker<C>,
    after: ShutdownBlocker<C>,
    callback: Option<C>,
    wparam: usize,
)
    requires
        after.spec_should_block(),
        after.spec_callback() == (if callback is Some {
            callback
        } else {
            before.spec_callback()
        }),
    ensures
        spec_shutdown_reply(
            after.spec_should_block(),
            after.spec_callback() is Some,
            WM_QUERYENDSESSION,
            wparam,
        ) == (ShutdownReply {
            notify: callback is Some || before.spec_callback() is Some,
            result: Some(0isize),
        }),
{
}

/// Once the blocker is torn down, the system's question whether the session
/// may end is allowed (answered 1), and no callback is told.
pub proof fn law_destroyed_blocker_allows_shutdown<C>(after: ShutdownBlocker<C>, wparam: usize)
    requires
        !after.spec_should_block(),
        after.spec_callback() is None,
    ensures
        spec_shutdown_reply(
            after.spec_should_block(),
            after.spec_callback() is Some,
            WM_QUERYENDSESSION,
            wparam,
        ) == (ShutdownReply { notify: false, result: Some(1isize) }),
{
}

/// The end of a session that does not end is answered 0, and other
/// messages than the two session messages go to the default procedure,
/// whatever the blocker's state.
pub proof fn law_other_messages_do_not_depend_on_state(
    should_block: bool,
    has_callback: bool,
    message: u32,
    wparam: usize,
)
    requires
        message != WM_QUERYENDSESSION,
    ensures
        spec_shutdown_reply(should_block, has_callback, message, wparam) == spec_shutdown_reply(
            false,
            false,
            message,
            wparam,
        ),
        !spec_shutdown_reply(should_block, has_callback, message, wparam).notify,
{
}

} // verus!
