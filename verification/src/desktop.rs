use vstd::prelude::*;
use crate::interactive::PostedMessage;
use crate::version::{OsVersion, spec_is_legacy_desktop, is_legacy_desktop};
use crate::wide::{encode_wide, spec_utf16};

verus! {

/// The class names and titles of the shell's desktop windows.
#[derive(Clone, Copy, Debug, PartialEq, Eq, Structural)]
pub enum ShellName {
    /// Class of the program manager window.
    Progman,
    /// Title of the program manager window.
    ProgramManager,
    /// Class of the window that shows the desktop's icons.
    ShellDllDefView,
    /// Class of the list of desktop icons.
    SysListView32,
    /// Title of the list of desktop icons.
    FolderView,
    /// Class of the worker windows behind the desktop.
    WorkerW,
    /// The empty title.
    Empty,
}

/// The text of a shell name.
pub open spec fn spec_shell_name_text(name: ShellName) -> Seq<char> {
    match name {
        ShellName::Progman => "Progman"@,
        ShellName::ProgramManager => "Program Manager"@,
        ShellName::ShellDllDefView => "SHELLDLL_DefView"@,
        ShellName::SysListView32 => "SysListView32"@,
        ShellName::FolderView => "FolderView"@,
        ShellName::WorkerW => "WorkerW"@,
        ShellName::Empty => ""@,
    }
}

/// A shell name as the NUL-terminated wide string that the window lookups take.
pub fn shell_name_wide(name: ShellName) -> (r: Vec<u16>)
    ensures
        r@ == spec_utf16(spec_shell_name_text(name)).push(0),
{
    match name {
        ShellName::Progman => encode_wide("Progman"),
        ShellName::ProgramManager => encode_wide("Program Manager"),
        ShellName::ShellDllDefView => encode_wide("SHELLDLL_DefView"),
        ShellName::SysListView32 => encode_wide("SysListView32"),
        ShellName::FolderView => encode_wide("FolderView"),
        ShellName::WorkerW => encode_wide("WorkerW"),
        ShellName::Empty => encode_wide(""),
    }
}

/// The bit of the shell settings word that is set while the desktop icons
/// are hidden.
pub const HIDE_ICONS_BIT: i32 = 0x00001000;
/// The shell settings mask that asks for the hide-icons setting.
pub const SSF_HIDEICONS: u32 = 0x4000;
/// The command message that the desktop view takes.
pub const WM_COMMAND: u32 = 0x0111;
/// The desktop view's command that toggles whether icons are shown.
pub const TOGGLE_DESKTOP_ICONS: usize = 0x7402;

/// The desktop icon flag of a shell settings word: its hide-icons bit.
pub open spec fn spec_icon_flag(bitfield: i32) -> bool {
    bitfield & HIDE_ICONS_BIT == HIDE_ICONS_BIT
}

/// The desktop icon flag of the shell settings word `bitfield`, as the
/// script side reads it: whether its hide-icons bit is set.
pub fn get_desktop_icon_visibility(bitfield: i32) -> (r: bool)
    ensures
        r == spec_icon_flag(bitfield),
{
    bitfield & 0x00001000i32 == 0x00001000i32
}

/// The command to send to the desktop view so that the icon flag becomes
/// `is_visible`, given the settings word `bitfield`: the toggle command where
/// the flag differs, nothing where it already agrees.
pub fn set_desktop_icon_visibility(bitfield: i32, is_visible: bool) -> (r: Option<PostedMessage>)
    ensures
        r == (if spec_icon_flag(bitfield) != is_visible {
            Some(PostedMessage { message: WM_COMMAND, wparam: TOGGLE_DESKTOP_ICONS, lparam: 0 })
        } else {
            None::<PostedMessage>
        }),
{
    let current = get_desktop_icon_visibility(bitfield);
    if current != is_visible {
        Some(PostedMessage { message: WM_COMMAND, wparam: TOGGLE_DESKTOP_ICONS, lparam: 0 })
    } else {
        None
    }
}

/// Where the toggle command flips the hide-icons bit, setting the icon flag
/// and then reading it gives back the value that was set.
pub proof fn law_icon_flag_set_then_get(bitfield: i32, is_visible: bool)
    ensures
        ({
            let after = if spec_icon_flag(bitfield) != is_visible {
                bitfield ^ HIDE_ICONS_BIT
            } else {
                bitfield
            };
            spec_icon_flag(after) == is_visible
        }),
{
    assert(spec_icon_flag(bitfield ^ HIDE_ICONS_BIT) == !spec_icon_flag(bitfield)) by (bit_vector);
}

/// A window lookup: the first child of `parent` after `after` (0: from the
/// start) with class `class` and title `title`. A `parent` of 0 looks among
/// the top-level windows.
#[derive(Clone, Copy, Debug, PartialEq, Eq, Structural)]
pub struct FindWindowQuery {
    pub parent: isize,
    pub after: isize,
    pub class: ShellName,
    pub title: ShellName,
}

/// The lookup of a window of class `class` and empty title.
pub open spec fn query(parent: isize, after: isize, class: ShellName) -> FindWindowQuery {
    FindWindowQuery { parent, after, class, title: ShellName::Empty }
}

/// What the desktop machine asks of the system next, and the event that
/// answers it.
#[derive(Clone, Copy, Debug, PartialEq, Eq, Structural)]
pub enum DesktopAction {
    /// Look up the program manager window (class `Progman`, title
    /// `Program Manager`); answered by `Handle`.
    FindProgman,
    /// Get the desktop window; answered by `Handle`.
    GetDesktopWindow,
    /// Get the foreground window; answered by `Handle`.
    GetForegroundWindow,
    /// Run the window lookup; answered by `Handle` (0: none found).
    FindWindow(FindWindowQuery),
    /// Ask the program manager window to make the worker window behind the
    /// desktop icons (message `0x052C`, `wparam` `0xD`, `lparam` 1, normal
    /// send with a timeout of 1000 ms); answered by `Ack`.
    SpawnWorker(isize),
    /// Enumerate the top-level windows: answer `TopWindow` for each, going on
    /// after each `NextTopWindow`, then `TopWindowsDone`.
    EnumTopWindows,
    /// Go on with the next top-level window.
    NextTopWindow,
    /// Stop enumerating the top-level windows; answered by `TopWindowsDone`.
    StopEnumeration,
    /// Read the operating system's version; answered by `Version`.
    ReadOsVersion,
    /// Show (`true`) or hide (`false`) the window; answered by `Ack`.
    ShowWindow(isize, bool),
    /// Make the second window the parent of the first; answered by `Handle`
    /// with the former parent (0: it failed).
    SetParent(isize, isize),
    /// Report that the parent could not be set; answered by `Ack`.
    ReportParentFailure,
    /// Set the desktop wallpaper again from the user's settings; answered by
    /// `Ack`.
    ResetWallpaper,
    /// The job is done.
    Finished,
    /// The job is done: whether the desktop is in front.
    IsDesktop(bool),
    /// The job is done: the desktop view window (0: none found).
    ShellView(isize),
    /// The event does not answer what the machine waits for; nothing changed.
    Ignored,
}

/// An answer of the system to a [`DesktopAction`].
#[derive(Clone, Copy, Debug, PartialEq, Eq, Structural)]
pub enum DesktopEvent {
    Handle(isize),
    Ack,
    TopWindow(isize),
    TopWindowsDone,
    Version(OsVersion),
}

/// A job of the desktop machine.
#[derive(Clone, Copy, Debug, PartialEq, Eq, Structural)]
pub enum DesktopJob {
    /// Make the window, where one is given, a child of the desktop's worker
    /// window (the program manager's on Windows 7) and show that window.
    SetupParent(Option<isize>),
    /// Reset the wallpaper and show the worker window again.
    RestoreParent,
    /// Whether the foreground window is the desktop.
    IsDesktop,
    /// Find the window that shows the desktop icons.
    FindShellView,
}

/// What follows the search for the desktop's worker window.
#[derive(Clone, Copy, Debug, PartialEq, Eq, Structural)]
pub enum HandlesThen {
    /// Go on with attaching the window, if any.
    Setup(Option<isize>),
    /// Compare with the foreground window.
    IsDesktop(isize),
}

/// What the desktop machine waits for.
#[derive(Clone, Copy, Debug, PartialEq, Eq, Structural)]
pub enum Phase {
    Idle,
    InitProgman(Option<isize>),
    InitSpawn(Option<isize>),
    InitTop(Option<isize>),
    InitTopView(Option<isize>, isize),
    InitTopWorker(Option<isize>),
    HandlesProgman(HandlesThen),
    HandlesFolder(HandlesThen),
    HandlesSpawn(HandlesThen, isize),
    HandlesDesk(HandlesThen),
    HandlesWorker(HandlesThen),
    HandlesView(HandlesThen),
    ParentVersion(isize),
    LegacyHidden(isize),
    LegacySetParent,
    LegacyReported,
    ModernSetParent,
    ModernReported,
    FinalShow,
    RestoreWallpaper,
    DeskForeground,
    DeskProgman(isize),
    ShellProgman,
    ShellDesk(isize),
    ShellDirect(isize),
    ShellWorker(isize),
    ShellViewOf(isize, isize),
}

/// The windows of the shell's desktop as far as they are known, and the
/// machine that finds them and attaches windows to them.
///
/// `progman` is the program manager window, `worker` the window that
/// attached windows become children of, `worker_orig` the worker window
/// found behind the desktop icons (0 until found), and `initialized` tells
/// whether the top-level windows were searched once.
#[derive(Clone, Copy, Debug, PartialEq, Eq, Structural)]
pub struct DesktopWindows {
    pub progman: isize,
    pub worker: isize,
    pub worker_orig: isize,
    pub initialized: bool,
    pub phase: Phase,
}

/// `m` waiting for `phase`.
pub open spec fn with_phase(m: DesktopWindows, phase: Phase) -> DesktopWindows {
    DesktopWindows { phase, ..m }
}

/// Attaching the window, if any: read the version first; without a window
/// the job is done.
pub open spec fn spec_parent_step(m: DesktopWindows, child: Option<isize>) -> (
    DesktopWindows,
    DesktopAction,
) {
    match child {
        Some(c) => (with_phase(m, Phase::ParentVersion(c)), DesktopAction::ReadOsVersion),
        None => (with_phase(m, Phase::Idle), DesktopAction::Finished),
    }
}

/// The end of the worker search with `result`.
pub open spec fn spec_handles_done(m: DesktopWindows, then: HandlesThen, result: isize) -> (
    DesktopWindows,
    DesktopAction,
) {
    match then {
        HandlesThen::Setup(child) => spec_parent_step(m, child),
        HandlesThen::IsDesktop(fg) => (
            with_phase(m, Phase::Idle),
            DesktopAction::IsDesktop(fg == result),
        ),
    }
}

/// The start of the worker search: a worker window found before is kept;
/// otherwise both handles are forgotten and the program manager is looked up.
pub open spec fn spec_start_handles(m: DesktopWindows, then: HandlesThen) -> (
    DesktopWindows,
    DesktopAction,
) {
    if m.worker_orig != 0 {
        spec_handles_done(m, then, m.worker_orig)
    } else {
        (
            DesktopWindows { worker_orig: 0, progman: 0, phase: Phase::HandlesProgman(then), ..m },
            DesktopAction::FindProgman,
        )
    }
}

/// After the top-level windows were searched: find the worker window where
/// none is known, then attach.
pub open spec fn spec_after_init(m: DesktopWindows, child: Option<isize>) -> (
    DesktopWindows,
    DesktopAction,
) {
    if m.worker == 0 {
        spec_start_handles(m, HandlesThen::Setup(child))
    } else {
        spec_parent_step(m, child)
    }
}

/// Show the worker window, then finish.
pub open spec fn spec_show_worker(m: DesktopWindows) -> (DesktopWindows, DesktopAction) {
    (with_phase(m, Phase::FinalShow), DesktopAction::ShowWindow(m.worker, true))
}

/// The state and first action of `job`.
pub open spec fn spec_start(m: DesktopWindows, job: DesktopJob) -> (DesktopWindows, DesktopAction) {
    match job {
        DesktopJob::SetupParent(child) => if !m.initialized {
            (with_phase(m, Phase::InitProgman(child)), DesktopAction::FindProgman)
        } else {
            spec_after_init(m, child)
        },
        DesktopJob::RestoreParent => if !m.initialized {
            (with_phase(m, Phase::Idle), DesktopAction::Finished)
        } else {
            (with_phase(m, Phase::RestoreWallpaper), DesktopAction::ResetWallpaper)
        },
        DesktopJob::IsDesktop => (
            with_phase(m, Phase::DeskForeground),
            DesktopAction::GetForegroundWindow,
        ),
        DesktopJob::FindShellView => (
            with_phase(m, Phase::ShellProgman),
            DesktopAction::FindProgman,
        ),
    }
}

/// The state and next action after `event`.
pub open spec fn spec_resume(m: DesktopWindows, event: DesktopEvent) -> (
    DesktopWindows,
    DesktopAction,
) {
    match (m.phase, event) {
        (Phase::InitProgman(c), DesktopEvent::Handle(p)) => (
            DesktopWindows { progman: p, phase: Phase::InitSpawn(c), ..m },
            DesktopAction::SpawnWorker(p),
        ),
        (Phase::InitSpawn(c), DesktopEvent::Ack) => (
            with_phase(m, Phase::InitTop(c)),
            DesktopAction::EnumTopWindows,
        ),
        (Phase::InitTop(c), DesktopEvent::TopWindow(t)) => (
            with_phase(m, Phase::InitTopView(c, t)),
            DesktopAction::FindWindow(query(t, 0, ShellName::ShellDllDefView)),
        ),
        (Phase::InitTop(c), DesktopEvent::TopWindowsDone) => spec_after_init(
            DesktopWindows { initialized: true, ..m },
            c,
        ),
        (Phase::InitTopView(c, t), DesktopEvent::Handle(v)) => if v != 0 {
            (
                with_phase(m, Phase::InitTopWorker(c)),
                DesktopAction::FindWindow(query(0, t, ShellName::WorkerW)),
            )
        } else {
            (with_phase(m, Phase::InitTop(c)), DesktopAction::NextTopWindow)
        },
        (Phase::InitTopWorker(c), DesktopEvent::Handle(w)) => (
            DesktopWindows { worker: w, phase: Phase::InitTop(c), ..m },
            DesktopAction::NextTopWindow,
        ),
        (Phase::HandlesProgman(th), DesktopEvent::Handle(p)) => (
            DesktopWindows { progman: p, phase: Phase::HandlesFolder(th), ..m },
            DesktopAction::FindWindow(query(p, 0, ShellName::ShellDllDefView)),
        ),
        (Phase::HandlesFolder(th), DesktopEvent::Handle(v)) => (
            with_phase(m, Phase::HandlesSpawn(th, v)),
            DesktopAction::SpawnWorker(m.progman),
        ),
        (Phase::HandlesSpawn(th, v), DesktopEvent::Ack) => if v == 0 {
            (with_phase(m, Phase::HandlesDesk(th)), DesktopAction::GetDesktopWindow)
        } else {
            spec_handles_done(m, th, m.worker_orig)
        },
        (Phase::HandlesDesk(th), DesktopEvent::Handle(d)) => (
            with_phase(m, Phase::HandlesWorker(th)),
            DesktopAction::FindWindow(query(d, m.worker_orig, ShellName::WorkerW)),
        ),
        (Phase::HandlesWorker(th), DesktopEvent::Handle(w)) => (
            DesktopWindows { worker_orig: w, phase: Phase::HandlesView(th), ..m },
            DesktopAction::FindWindow(query(w, 0, ShellName::ShellDllDefView)),
        ),
        (Phase::HandlesView(th), DesktopEvent::Handle(v)) => if v == 0 && m.worker_orig != 0 {
            (with_phase(m, Phase::HandlesDesk(th)), DesktopAction::GetDesktopWindow)
        } else {
            spec_handles_done(m, th, m.worker_orig)
        },
        (Phase::ParentVersion(c), DesktopEvent::Version(v)) => if spec_is_legacy_desktop(v) {
            if m.worker != m.progman {
                (with_phase(m, Phase::LegacyHidden(c)), DesktopAction::ShowWindow(m.worker, false))
            } else {
                (with_phase(m, Phase::LegacySetParent), DesktopAction::SetParent(c, m.progman))
            }
        } else {
            (with_phase(m, Phase::ModernSetParent), DesktopAction::SetParent(c, m.worker))
        },
        (Phase::LegacyHidden(c), DesktopEvent::Ack) => (
            with_phase(m, Phase::LegacySetParent),
            DesktopAction::SetParent(c, m.progman),
        ),
        (Phase::LegacySetParent, DesktopEvent::Handle(ret)) => if ret == 0 {
            (with_phase(m, Phase::LegacyReported), DesktopAction::ReportParentFailure)
        } else {
            spec_show_worker(DesktopWindows { worker: m.progman, ..m })
        },
        (Phase::LegacyReported, DesktopEvent::Ack) => spec_show_worker(
            DesktopWindows { worker: m.progman, ..m },
        ),
        (Phase::ModernSetParent, DesktopEvent::Handle(ret)) => if ret == 0 {
            (with_phase(m, Phase::ModernReported), DesktopAction::ReportParentFailure)
        } else {
            spec_show_worker(m)
        },
        (Phase::ModernReported, DesktopEvent::Ack) => spec_show_worker(m),
        (Phase::FinalShow, DesktopEvent::Ack) => (
            with_phase(m, Phase::Idle),
            DesktopAction::Finished,
        ),
        (Phase::RestoreWallpaper, DesktopEvent::Ack) => spec_show_worker(m),
        (Phase::DeskForeground, DesktopEvent::Handle(fg)) => (
            with_phase(m, Phase::DeskProgman(fg)),
            DesktopAction::FindProgman,
        ),
        (Phase::DeskProgman(fg), DesktopEvent::Handle(p)) => if fg == p {
            (with_phase(m, Phase::Idle), DesktopAction::IsDesktop(true))
        } else {
            spec_start_handles(m, HandlesThen::IsDesktop(fg))
        },
        (Phase::ShellProgman, DesktopEvent::Handle(p)) => (
            with_phase(m, Phase::ShellDesk(p)),
            DesktopAction::GetDesktopWindow,
        ),
        (Phase::ShellDesk(p), DesktopEvent::Handle(d)) => if p != 0 {
            (
                with_phase(m, Phase::ShellDirect(d)),
                DesktopAction::FindWindow(query(p, 0, ShellName::ShellDllDefView)),
            )
        } else {
            (with_phase(m, Phase::Idle), DesktopAction::ShellView(0))
        },
        (Phase::ShellDirect(d), DesktopEvent::Handle(v)) => if v == 0 {
            (
                with_phase(m, Phase::ShellWorker(d)),
                DesktopAction::FindWindow(query(d, 0, ShellName::WorkerW)),
            )
        } else {
            (with_phase(m, Phase::Idle), DesktopAction::ShellView(v))
        },
        (Phase::ShellWorker(d), DesktopEvent::Handle(w)) => (
            with_phase(m, Phase::ShellViewOf(d, w)),
            DesktopAction::FindWindow(query(w, 0, ShellName::ShellDllDefView)),
        ),
        (Phase::ShellViewOf(d, w), DesktopEvent::Handle(v)) => if v == 0 && w != 0 {
            (
                with_phase(m, Phase::ShellWorker(d)),
                DesktopAction::FindWindow(query(d, w, ShellName::WorkerW)),
            )
        } else {
            (with_phase(m, Phase::Idle), DesktopAction::ShellView(v))
        },
        _ => (m, DesktopAction::Ignored),
    }
}

/// The lookup of a window of class `class` and empty title.
pub(crate) fn find(parent: isize, after: isize, class: ShellName) -> (r: DesktopAction)
    ensures
        r == DesktopAction::FindWindow(query(parent, after, class)),
{
    DesktopAction::FindWindow(FindWindowQuery { parent, after, class, title: ShellName::Empty })
}

impl DesktopWindows {
    /// Nothing known yet, nothing searched, no job.
    pub fn new() -> (r: Self)
        ensures
            r == (DesktopWindows {
                progman: 0,
                worker: 0,
                worker_orig: 0,
                initialized: false,
                phase: Phase::Idle,
            }),
    {
        DesktopWindows { progman: 0, worker: 0, worker_orig: 0, initialized: false, phase: Phase::Idle }
    }

    fn parent_step(&mut self, child: Option<isize>) -> (r: DesktopAction)
        ensures
            (*final(self), r) == spec_parent_step(*old(self), child),
    {
        match child {
            Some(c) => {
                self.phase = Phase::ParentVersion(c);
                DesktopAction::ReadOsVersion
            },
            None => {
                self.phase = Phase::Idle;
                DesktopAction::Finished
            },
        }
    }

    fn handles_done(&mut self, then: HandlesThen, result: isize) -> (r: DesktopAction)
        ensures
            (*final(self), r) == spec_handles_done(*old(self), then, result),
    {
        match then {
            HandlesThen::Setup(child) => self.parent_step(child),
            HandlesThen::IsDesktop(fg) => {
                self.phase = Phase::Idle;
                DesktopAction::IsDesktop(fg == result)
            },
        }
    }

    fn start_handles(&mut self, then: HandlesThen) -> (r: DesktopAction)
        ensures
            (*final(self), r) == spec_start_handles(*old(self), then),
    {
        if self.worker_orig != 0 {
            let found = self.worker_orig;
            self.handles_done(then, found)
        } else {
            self.worker_orig = 0;
            self.progman = 0;
            self.phase = Phase::HandlesProgman(then);
            DesktopAction::FindProgman
        }
    }

    fn after_init(&mut self, child: Option<isize>) -> (r: DesktopAction)
        ensures
            (*final(self), r) == spec_after_init(*old(self), child),
    {
        if self.worker == 0 {
            self.start_handles(HandlesThen::Setup(child))
        } else {
            self.parent_step(child)
        }
    }

    fn show_worker(&mut self) -> (r: DesktopAction)
        ensures
            (*final(self), r) == spec_show_worker(*old(self)),
    {
        self.phase = Phase::FinalShow;
        DesktopAction::ShowWindow(self.worker, true)
    }

    /// Starts `job`; returns its first action. A job that was running is
    /// abandoned.
    pub fn start(&mut self, job: DesktopJob) -> (r: DesktopAction)
        ensures
            (*final(self), r) == spec_start(*old(self), job),
    {
        match job {
            DesktopJob::SetupParent(child) => {
                if !self.initialized {
                    self.phase = Phase::InitProgman(child);
                    DesktopAction::FindProgman
                } else {
                    self.after_init(child)
                }
            },
            DesktopJob::RestoreParent => {
                if !self.initialized {
                    self.phase = Phase::Idle;
                    DesktopAction::Finished
                } else {
                    self.phase = Phase::RestoreWallpaper;
                    DesktopAction::ResetWallpaper
                }
            },
            DesktopJob::IsDesktop => {
                self.phase = Phase::DeskForeground;
                DesktopAction::GetForegroundWindow
            },
            DesktopJob::FindShellView => {
                self.phase = Phase::ShellProgman;
                DesktopAction::FindProgman
            },
        }
    }

    /// Starts attaching `child`, where one is given, to the desktop (see
    /// [`DesktopJob::SetupParent`]).
    pub fn setup_interactive_parent_window(&mut self, child: Option<isize>) -> (r: DesktopAction)
        ensures
            (*final(self), r) == spec_start(*old(self), DesktopJob::SetupParent(child)),
    {
        self.start(DesktopJob::SetupParent(child))
    }

    /// Starts restoring the desktop (see [`DesktopJob::RestoreParent`]).
    pub fn restore_interactive_parent_window(&mut self) -> (r: DesktopAction)
        ensures
            (*final(self), r) == spec_start(*old(self), DesktopJob::RestoreParent),
    {
        self.start(DesktopJob::RestoreParent)
    }

    /// Starts asking whether the desktop is in front (see
    /// [`DesktopJob::IsDesktop`]).
    pub fn is_desktop(&mut self) -> (r: DesktopAction)
        ensures
            (*final(self), r) == spec_start(*old(self), DesktopJob::IsDesktop),
    {
        self.start(DesktopJob::IsDesktop)
    }

    /// Starts the search for the desktop view (see
    /// [`DesktopJob::FindShellView`]).
    pub fn find_desktop_shell_dll_def_view(&mut self) -> (r: DesktopAction)
        ensures
            (*final(self), r) == spec_start(*old(self), DesktopJob::FindShellView),
    {
        self.start(DesktopJob::FindShellView)
    }

    /// Hands the machine the system's answer to its last action; returns the
    /// next action.
    pub fn resume(&mut self, event: DesktopEvent) -> (r: DesktopAction)
        ensures
            (*final(self), r) == spec_resume(*old(self), event),
    {
        match (self.phase, event) {
            (Phase::InitProgman(c), DesktopEvent::Handle(p)) => {
                self.progman = p;
                self.phase = Phase::InitSpawn(c);
                DesktopAction::SpawnWorker(p)
            },
            (Phase::InitSpawn(c), DesktopEvent::Ack) => {
                self.phase = Phase::InitTop(c);
                DesktopAction::EnumTopWindows
            },
            (Phase::InitTop(c), DesktopEvent::TopWindow(t)) => {
                self.phase = Phase::InitTopView(c, t);
                find(t, 0, ShellName::ShellDllDefView)
            },
            (Phase::InitTop(c), DesktopEvent::TopWindowsDone) => {
                self.initialized = true;
                self.after_init(c)
            },
            (Phase::InitTopView(c, t), DesktopEvent::Handle(v)) => {
                if v != 0 {
                    self.phase = Phase::InitTopWorker(c);
                    find(0, t, ShellName::WorkerW)
                } else {
                    self.phase = Phase::InitTop(c);
                    DesktopAction::NextTopWindow
                }
            },
            (Phase::InitTopWorker(c), DesktopEvent::Handle(w)) => {
                self.worker = w;
                self.phase = Phase::InitTop(c);
                DesktopAction::NextTopWindow
            },
            (Phase::HandlesProgman(th), DesktopEvent::Handle(p)) => {
                self.progman = p;
                self.phase = Phase::HandlesFolder(th);
                find(p, 0, ShellName::ShellDllDefView)
            },
            (Phase::HandlesFolder(th), DesktopEvent::Handle(v)) => {
                self.phase = Phase::HandlesSpawn(th, v);
                DesktopAction::SpawnWorker(self.progman)
            },
            (Phase::HandlesSpawn(th, v), DesktopEvent::Ack) => {
                if v == 0 {
                    self.phase = Phase::HandlesDesk(th);
                    DesktopAction::GetDesktopWindow
                } else {
                    let found = self.worker_orig;
                    self.handles_done(th, found)
                }
            },
            (Phase::HandlesDesk(th), DesktopEvent::Handle(d)) => {
                self.phase = Phase::HandlesWorker(th);
                find(d, self.worker_orig, ShellName::WorkerW)
            },
            (Phase::HandlesWorker(th), DesktopEvent::Handle(w)) => {
                self.worker_orig = w;
                self.phase = Phase::HandlesView(th);
                find(w, 0, ShellName::ShellDllDefView)
            },
            (Phase::HandlesView(th), DesktopEvent::Handle(v)) => {
                if v == 0 && self.worker_orig != 0 {
                    self.phase = Phase::HandlesDesk(th);
                    DesktopAction::GetDesktopWindow
                } else {
                    let found = self.worker_orig;
                    self.handles_done(th, found)
                }
            },
            (Phase::ParentVersion(c), DesktopEvent::Version(v)) => {
                if is_legacy_desktop(v) {
                    if self.worker != self.progman {
                        self.phase = Phase::LegacyHidden(c);
                        DesktopAction::ShowWindow(self.worker, false)
                    } else {
                        self.phase = Phase::LegacySetParent;
                        DesktopAction::SetParent(c, self.progman)
                    }
                } else {
                    self.phase = Phase::ModernSetParent;
                    DesktopAction::SetParent(c, self.worker)
                }
            },
            (Phase::LegacyHidden(c), DesktopEvent::Ack) => {
                self.phase = Phase::LegacySetParent;
                DesktopAction::SetParent(c, self.progman)
            },
            (Phase::LegacySetParent, DesktopEvent::Handle(ret)) => {
                if ret == 0 {
                    self.phase = Phase::LegacyReported;
                    DesktopAction::ReportParentFailure
                } else {
                    self.worker = self.progman;
                    self.show_worker()
                }
            },
            (Phase::LegacyReported, DesktopEvent::Ack) => {
                self.worker = self.progman;
                self.show_worker()
            },
            (Phase::ModernSetParent, DesktopEvent::Handle(ret)) => {
                if ret == 0 {
                    self.phase = Phase::ModernReported;
                    DesktopAction::ReportParentFailure
                } else {
                    self.show_worker()
                }
            },
            (Phase::ModernReported, DesktopEvent::Ack) => self.show_worker(),
            (Phase::FinalShow, DesktopEvent::Ack) => {
                self.phase = Phase::Idle;
                DesktopAction::Finished
            },
            (Phase::RestoreWallpaper, DesktopEvent::Ack) => self.show_worker(),
            (Phase::DeskForeground, DesktopEvent::Handle(fg)) => {
                self.phase = Phase::DeskProgman(fg);
                DesktopAction::FindProgman
            },
            (Phase::DeskProgman(fg), DesktopEvent::Handle(p)) => {
                if fg == p {
                    self.phase = Phase::Idle;
                    DesktopAction::IsDesktop(true)
                } else {
                    self.start_handles(HandlesThen::IsDesktop(fg))
                }
            },
            (Phase::ShellProgman, DesktopEvent::Handle(p)) => {
                self.phase = Phase::ShellDesk(p);
                DesktopAction::GetDesktopWindow
            },
            (Phase::ShellDesk(p), DesktopEvent::Handle(d)) => {
                if p != 0 {
                    self.phase = Phase::ShellDirect(d);
                    find(p, 0, ShellName::ShellDllDefView)
                } else {
                    self.phase = Phase::Idle;
                    DesktopAction::ShellView(0)
                }
            },
            (Phase::ShellDirect(d), DesktopEvent::Handle(v)) => {
                if v == 0 {
                    self.phase = Phase::ShellWorker(d);
                    find(d, 0, ShellName::WorkerW)
                } else {
                    self.phase = Phase::Idle;
                    DesktopAction::ShellView(v)
                }
            },
            (Phase::ShellWorker(d), DesktopEvent::Handle(w)) => {
                self.phase = Phase::ShellViewOf(d, w);
                find(w, 0, ShellName::ShellDllDefView)
            },
            (Phase::ShellViewOf(d, w), DesktopEvent::Handle(v)) => {
                if v == 0 && w != 0 {
                    self.phase = Phase::ShellWorker(d);
                    find(d, w, ShellName::WorkerW)
                } else {
                    self.phase = Phase::Idle;
                    DesktopAction::ShellView(v)
                }
            },
            _ => DesktopAction::Ignored,
        }
    }
}

/// Once the top-level windows were searched, no job and no answer makes the
/// machine search them again.
pub proof fn law_initialized_stays(m: DesktopWindows, job: DesktopJob, event: DesktopEvent)
    requires
        m.initialized,
    ensures
        spec_start(m, job).0.initialized,
        spec_resume(m, event).0.initialized,
{
}

/// An answer that the machine does not wait for changes nothing.
pub proof fn law_unexpected_answer_changes_nothing(m: DesktopWindows, event: DesktopEvent)
    requires
        spec_resume(m, event).1 == DesktopAction::Ignored,
    ensures
        spec_resume(m, event).0 == m,
{
}

/// Restoring before anything was set up does nothing.
pub proof fn law_restore_before_setup_does_nothing(m: DesktopWindows)
    requires
        !m.initialized,
    ensures
        spec_start(m, DesktopJob::RestoreParent) == (
            with_phase(m, Phase::Idle),
            DesktopAction::Finished,
        ),
{
}

/// The desktop is in front when the foreground window is the program
/// manager window.
pub proof fn law_program_manager_in_front_is_desktop(m: DesktopWindows, fg: isize)
    ensures
        ({
            let (m1, a1) = spec_start(m, DesktopJob::IsDesktop);
            let (m2, a2) = spec_resume(m1, DesktopEvent::Handle(fg));
            let (m3, a3) = spec_resume(m2, DesktopEvent::Handle(fg));
            &&& a1 == DesktopAction::GetForegroundWindow
            &&& a2 == DesktopAction::FindProgman
            &&& a3 == DesktopAction::IsDesktop(true)
            &&& m3 == with_phase(m, Phase::Idle)
        }),
{
}

/// Once the worker window behind the icons is known, asking whether the
/// desktop is in front compares the foreground window with the program
/// manager and that worker window, without looking up any other window.
pub proof fn law_known_worker_is_not_searched_again(m: DesktopWindows, fg: isize, progman: isize)
    requires
        m.worker_orig != 0,
        fg != progman,
    ensures
        ({
            let (m1, a1) = spec_start(m, DesktopJob::IsDesktop);
            let (m2, a2) = spec_resume(m1, DesktopEvent::Handle(fg));
            let (m3, a3) = spec_resume(m2, DesktopEvent::Handle(progman));
            &&& a3 == DesktopAction::IsDesktop(fg == m.worker_orig)
            &&& m3 == with_phase(m, Phase::Idle)
        }),
{
}

/// On Windows 7, a window that was made a child of the program manager
/// leaves the program manager as the worker window, whether or not the
/// system reported a failure.
pub proof fn law_legacy_attach_uses_program_manager(m: DesktopWindows, ret: isize)
    requires
        m.phase == Phase::LegacySetParent,
    ensures
        ({
            let (m1, a1) = spec_resume(m, DesktopEvent::Handle(ret));
            let (m2, a2) = spec_resume(m1, DesktopEvent::Ack);
            &&& ret != 0 ==> m1.worker == m.progman && a1 == DesktopAction::ShowWindow(
                m.progman,
                true,
            )
            &&& ret == 0 ==> a1 == DesktopAction::ReportParentFailure && m2.worker == m.progman
                && a2 == DesktopAction::ShowWindow(m.progman, true)
        }),
{
}

/// The search for the desktop view ends only with a view found or with no
/// further worker window to look in.
pub proof fn law_shell_view_search_ends_at_view_or_last_worker(
    d: isize,
    w: isize,
    m: DesktopWindows,
    v: isize,
)
    requires
        m.phase == Phase::ShellViewOf(d, w),
    ensures
        spec_resume(m, DesktopEvent::Handle(v)).1 matches DesktopAction::ShellView(found) ==> (found
            == v && (v != 0 || w == 0)),
        !(spec_resume(m, DesktopEvent::Handle(v)).1 is ShellView) ==> spec_resume(
            m,
            DesktopEvent::Handle(v),
        ).1 == DesktopAction::FindWindow(query(d, w, ShellName::WorkerW)),
{
}

/// The search for the worker window behind the icons ends only with the
/// icons found in the last worker window or with no further worker window.
pub proof fn law_worker_search_ends_at_icons_or_last_worker(
    m: DesktopWindows,
    then: HandlesThen,
    v: isize,
)
    requires
        m.phase == Phase::HandlesView(then),
    ensures
        spec_resume(m, DesktopEvent::Handle(v)).0.phase != Phase::HandlesDesk(then) ==> (v != 0
            || m.worker_orig == 0),
        spec_resume(m, DesktopEvent::Handle(v)).0.worker_orig == m.worker_orig,
{
}

/// The program manager found at the start of the search of the top-level
/// windows is recorded, and the worker window is asked of it.
pub proof fn law_init_records_program_manager(m: DesktopWindows, p: isize)
    requires
        m.phase is InitProgman,
    ensures
        spec_resume(m, DesktopEvent::Handle(p)).0.progman == p,
        spec_resume(m, DesktopEvent::Handle(p)).1 == DesktopAction::SpawnWorker(p),
        spec_resume(m, DesktopEvent::Handle(p)).0.worker == m.worker,
        spec_resume(m, DesktopEvent::Handle(p)).0.worker_orig == m.worker_orig,
{
}

/// On Windows 7, a first setup attaches the window to the program manager
/// that the first lookup answered, after hiding the worker window found
/// behind the desktop view, and then shows that program manager.
pub proof fn law_windows_7_setup_attaches_to_found_program_manager(
    m: DesktopWindows,
    child: isize,
    p: isize,
    top: isize,
    view: isize,
    w: isize,
    v: OsVersion,
    ret: isize,
)
    requires
        !m.initialized,
        view != 0,
        w != 0,
        w != p,
        ret != 0,
        v.major == 6 && v.minor == 1,
    ensures
        ({
            let (m1, a1) = spec_start(m, DesktopJob::SetupParent(Some(child)));
            let (m2, a2) = spec_resume(m1, DesktopEvent::Handle(p));
            let (m3, a3) = spec_resume(m2, DesktopEvent::Ack);
            let (m4, a4) = spec_resume(m3, DesktopEvent::TopWindow(top));
            let (m5, a5) = spec_resume(m4, DesktopEvent::Handle(view));
            let (m6, a6) = spec_resume(m5, DesktopEvent::Handle(w));
            let (m7, a7) = spec_resume(m6, DesktopEvent::TopWindowsDone);
            let (m8, a8) = spec_resume(m7, DesktopEvent::Version(v));
            let (m9, a9) = spec_resume(m8, DesktopEvent::Ack);
            let (m10, a10) = spec_resume(m9, DesktopEvent::Handle(ret));
            &&& a1 == DesktopAction::FindProgman
            &&& a2 == DesktopAction::SpawnWorker(p)
            &&& a7 == DesktopAction::ReadOsVersion
            &&& a8 == DesktopAction::ShowWindow(w, false)
            &&& a9 == DesktopAction::SetParent(child, p)
            &&& a10 == DesktopAction::ShowWindow(p, true)
            &&& m10.progman == p
            &&& m10.worker == p
            &&& m10.initialized
        }),
{
}

/// Asking whether the desktop is in front compares the foreground window
/// with the worker window that the search ended on, whichever answer ends
/// the search.
pub proof fn law_is_desktop_compares_with_found_worker(
    m: DesktopWindows,
    fg: isize,
    v: isize,
)
    ensures
        m.phase == Phase::HandlesView(HandlesThen::IsDesktop(fg)) && !(v == 0 && m.worker_orig
            != 0) ==> spec_resume(m, DesktopEvent::Handle(v)) == (
            with_phase(m, Phase::Idle),
            DesktopAction::IsDesktop(fg == m.worker_orig),
        ),
        m.phase == Phase::HandlesSpawn(HandlesThen::IsDesktop(fg), v) && v != 0 ==> spec_resume(
            m,
            DesktopEvent::Ack,
        ) == (with_phase(m, Phase::Idle), DesktopAction::IsDesktop(fg == m.worker_orig)),
{
}

/// A search that walks to a worker window holding the desktop view answers
/// whether the foreground window is that worker window.
pub proof fn law_is_desktop_after_search(
    m: DesktopWindows,
    fg: isize,
    desk: isize,
    w: isize,
    view: isize,
)
    requires
        m.phase == Phase::HandlesDesk(HandlesThen::IsDesktop(fg)),
        view != 0,
    ensures
        ({
            let (m1, a1) = spec_resume(m, DesktopEvent::Handle(desk));
            let (m2, a2) = spec_resume(m1, DesktopEvent::Handle(w));
            let (m3, a3) = spec_resume(m2, DesktopEvent::Handle(view));
            &&& a1 == DesktopAction::FindWindow(query(desk, m.worker_orig, ShellName::WorkerW))
            &&& a2 == DesktopAction::FindWindow(query(w, 0, ShellName::ShellDllDefView))
            &&& a3 == DesktopAction::IsDesktop(fg == w)
            &&& m3.worker_orig == w
        }),
{
}

/// After Windows 7, a first setup attaches the window to the worker window
/// that follows the top-level window holding the desktop view, and then shows
/// that worker window.
pub proof fn law_setup_attaches_to_found_worker(
    m: DesktopWindows,
    child: isize,
    p: isize,
    top: isize,
    view: isize,
    w: isize,
    v: OsVersion,
    ret: isize,
)
    requires
        !m.initialized,
        view != 0,
        w != 0,
        ret != 0,
        !(v.major == 6 && v.minor == 1),
    ensures
        ({
            let (m1, a1) = spec_start(m, DesktopJob::SetupParent(Some(child)));
            let (m2, a2) = spec_resume(m1, DesktopEvent::Handle(p));
            let (m3, a3) = spec_resume(m2, DesktopEvent::Ack);
            let (m4, a4) = spec_resume(m3, DesktopEvent::TopWindow(top));
            let (m5, a5) = spec_resume(m4, DesktopEvent::Handle(view));
            let (m6, a6) = spec_resume(m5, DesktopEvent::Handle(w));
            let (m7, a7) = spec_resume(m6, DesktopEvent::TopWindowsDone);
            let (m8, a8) = spec_resume(m7, DesktopEvent::Version(v));
            let (m9, a9) = spec_resume(m8, DesktopEvent::Handle(ret));
            &&& a5 == DesktopAction::FindWindow(query(0, top, ShellName::WorkerW))
            &&& a6 == DesktopAction::NextTopWindow
            &&& a8 == DesktopAction::SetParent(child, w)
            &&& a9 == DesktopAction::ShowWindow(w, true)
            &&& m9.worker == w
            &&& m9.progman == p
        }),
{
}

} // verus!
