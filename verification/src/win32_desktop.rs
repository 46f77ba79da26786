use vstd::prelude::*;
use crate::desktop::{
    DesktopAction, DesktopEvent, FindWindowQuery, ShellName, find, query,
};

verus! {

/// What follows the search for the worker window.
#[derive(Clone, Copy, Debug, PartialEq, Eq, Structural)]
pub enum SearchThen {
    /// Attach the window, if any.
    Setup(Option<isize>),
    /// Hide the worker window.
    Restore,
}

/// What the machine waits for.
#[derive(Clone, Copy, Debug, PartialEq, Eq, Structural)]
pub enum Win32Phase {
    Idle,
    SearchProgman(SearchThen),
    SearchSpawn(SearchThen),
    SearchTop(SearchThen),
    SearchTopView(SearchThen, isize),
    SearchFolder(SearchThen, isize),
    SearchWorker(SearchThen),
    FallbackProgman(Option<isize>),
    SetParent,
    FinalShow,
}

/// A job of the machine.
#[derive(Clone, Copy, Debug, PartialEq, Eq, Structural)]
pub enum Win32Job {
    /// Make the window, where one is given, a child of the worker window and
    /// show that window.
    SetupParent(Option<isize>),
    /// Hide the worker window.
    RestoreParent,
}

/// The desktop windows as the direct variant tracks them: the worker window
/// that windows become children of (0 until found), the desktop view, the
/// top-level window that holds it, and the icon list inside it.
#[derive(Clone, Copy, Debug, PartialEq, Eq, Structural)]
pub struct Win32DesktopWindows {
    pub worker: isize,
    pub def_view: isize,
    pub view_host: isize,
    pub folder_view: isize,
    pub phase: Win32Phase,
}

/// `m` waiting for `phase`.
pub open spec fn w32_with_phase(m: Win32DesktopWindows, phase: Win32Phase) -> Win32DesktopWindows {
    Win32DesktopWindows { phase, ..m }
}

/// Attaching the window, if any, to the worker window.
pub open spec fn spec_w32_attach(m: Win32DesktopWindows, child: Option<isize>) -> (
    Win32DesktopWindows,
    DesktopAction,
) {
    match child {
        Some(c) => (w32_with_phase(m, Win32Phase::SetParent), DesktopAction::SetParent(c, m.worker)),
        None => (w32_with_phase(m, Win32Phase::Idle), DesktopAction::Finished),
    }
}

/// The end of the worker search.
pub open spec fn spec_w32_search_done(m: Win32DesktopWindows, then: SearchThen) -> (
    Win32DesktopWindows,
    DesktopAction,
) {
    match then {
        SearchThen::Setup(child) => if m.worker == 0 {
            (w32_with_phase(m, Win32Phase::FallbackProgman(child)), DesktopAction::FindProgman)
        } else {
            spec_w32_attach(m, child)
        },
        SearchThen::Restore => (
            w32_with_phase(m, Win32Phase::FinalShow),
            DesktopAction::ShowWindow(m.worker, false),
        ),
    }
}

/// The state and first action of `job`.
pub open spec fn spec_w32_start(m: Win32DesktopWindows, job: Win32Job) -> (
    Win32DesktopWindows,
    DesktopAction,
) {
    match job {
        Win32Job::SetupParent(child) => if m.worker == 0 {
            (
                w32_with_phase(m, Win32Phase::SearchProgman(SearchThen::Setup(child))),
                DesktopAction::FindProgman,
            )
        } else {
            spec_w32_attach(m, child)
        },
        Win32Job::RestoreParent => if m.worker == 0 {
            (
                w32_with_phase(m, Win32Phase::SearchProgman(SearchThen::Restore)),
                DesktopAction::FindProgman,
            )
        } else {
            (w32_with_phase(m, Win32Phase::FinalShow), DesktopAction::ShowWindow(m.worker, false))
        },
    }
}

/// The state and next action after `event`.
pub open spec fn spec_w32_resume(m: Win32DesktopWindows, event: DesktopEvent) -> (
    Win32DesktopWindows,
    DesktopAction,
) {
    match (m.phase, event) {
        (Win32Phase::SearchProgman(th), DesktopEvent::Handle(p)) => (
            w32_with_phase(m, Win32Phase::SearchSpawn(th)),
            DesktopAction::SpawnWorker(p),
        ),
        (Win32Phase::SearchSpawn(th), DesktopEvent::Ack) => if m.worker == 0 {
            (w32_with_phase(m, Win32Phase::SearchTop(th)), DesktopAction::EnumTopWindows)
        } else {
            spec_w32_search_done(m, th)
        },
        (Win32Phase::SearchTop(th), DesktopEvent::TopWindow(t)) => (
            w32_with_phase(m, Win32Phase::SearchTopView(th, t)),
            DesktopAction::FindWindow(query(t, 0, ShellName::ShellDllDefView)),
        ),
        (Win32Phase::SearchTop(th), DesktopEvent::TopWindowsDone) => spec_w32_search_done(m, th),
        (Win32Phase::SearchTopView(th, t), DesktopEvent::Handle(v)) => if v != 0 {
            (
                Win32DesktopWindows {
                    def_view: v,
                    view_host: t,
                    phase: Win32Phase::SearchFolder(th, t),
                    ..m
                },
                DesktopAction::FindWindow(
                    FindWindowQuery {
                        parent: v,
                        after: 0,
                        class: ShellName::SysListView32,
                        title: ShellName::FolderView,
                    },
                ),
            )
        } else {
            (w32_with_phase(m, Win32Phase::SearchTop(th)), DesktopAction::NextTopWindow)
        },
        (Win32Phase::SearchFolder(th, t), DesktopEvent::Handle(f)) => (
            Win32DesktopWindows { folder_view: f, phase: Win32Phase::SearchWorker(th), ..m },
            DesktopAction::FindWindow(query(0, t, ShellName::WorkerW)),
        ),
        (Win32Phase::SearchWorker(th), DesktopEvent::Handle(w)) => (
            Win32DesktopWindows { worker: w, phase: Win32Phase::SearchTop(th), ..m },
            DesktopAction::StopEnumeration,
        ),
        (Win32Phase::FallbackProgman(child), DesktopEvent::Handle(p)) => spec_w32_attach(
            Win32DesktopWindows { worker: p, ..m },
            child,
        ),
        (Win32Phase::SetParent, DesktopEvent::Handle(_)) => (
            w32_with_phase(m, Win32Phase::FinalShow),
            DesktopAction::ShowWindow(m.worker, true),
        ),
        (Win32Phase::FinalShow, DesktopEvent::Ack) => (
            w32_with_phase(m, Win32Phase::Idle),
            DesktopAction::Finished,
        ),
        _ => (m, DesktopAction::Ignored),
    }
}

impl Win32DesktopWindows {
    /// Nothing known yet, no job.
    pub fn new() -> (r: Self)
        ensures
            r == (Win32DesktopWindows {
                worker: 0,
                def_view: 0,
                view_host: 0,
                folder_view: 0,
                phase: Win32Phase::Idle,
            }),
    {
        Win32DesktopWindows { worker: 0, def_view: 0, view_host: 0, folder_view: 0, phase: Win32Phase::Idle }
    }

    fn attach(&mut self, child: Option<isize>) -> (r: DesktopAction)
        ensures
            (*final(self), r) == spec_w32_attach(*old(self), child),
    {
        match child {
            Some(c) => {
                self.phase = Win32Phase::SetParent;
                DesktopAction::SetParent(c, self.worker)
            },
            None => {
                self.phase = Win32Phase::Idle;
                DesktopAction::Finished
            },
        }
    }

    fn search_done(&mut self, then: SearchThen) -> (r: DesktopAction)
        ensures
            (*final(self), r) == spec_w32_search_done(*old(self), then),
    {
        match then {
            SearchThen::Setup(child) => {
                if self.worker == 0 {
                    self.phase = Win32Phase::FallbackProgman(child);
                    DesktopAction::FindProgman
                } else {
                    self.attach(child)
                }
            },
            SearchThen::Restore => {
                self.phase = Win32Phase::FinalShow;
                DesktopAction::ShowWindow(self.worker, false)
            },
        }
    }

    /// Starts `job`; returns its first action. A job that was running is
    /// abandoned.
    pub fn start(&mut self, job: Win32Job) -> (r: DesktopAction)
        ensures
            (*final(self), r) == spec_w32_start(*old(self), job),
    {
        match job {
            Win32Job::SetupParent(child) => {
                if self.worker == 0 {
                    self.phase = Win32Phase::SearchProgman(SearchThen::Setup(child));
                    DesktopAction::FindProgman
                } else {
                    self.attach(child)
                }
            },
            Win32Job::RestoreParent => {
                if self.worker == 0 {
                    self.phase = Win32Phase::SearchProgman(SearchThen::Restore);
                    DesktopAction::FindProgman
                } else {
                    self.phase = Win32Phase::FinalShow;
                    DesktopAction::ShowWindow(self.worker, false)
                }
            },
        }
    }

    /// Starts attaching `child`, where one is given, to the worker window.
    pub fn setup_interactive_parent_window(&mut self, child: Option<isize>) -> (r: DesktopAction)
        ensures
            (*final(self), r) == spec_w32_start(*old(self), Win32Job::SetupParent(child)),
    {
        self.start(Win32Job::SetupParent(child))
    }

    /// Starts hiding the worker window.
    pub fn restore_interactive_parent_window(&mut self) -> (r: DesktopAction)
        ensures
            (*final(self), r) == spec_w32_start(*old(self), Win32Job::RestoreParent),
    {
        self.start(Win32Job::RestoreParent)
    }

    /// Hands the machine the system's answer to its last action; returns the
    /// next action.
    pub fn resume(&mut self, event: DesktopEvent) -> (r: DesktopAction)
        ensures
            (*final(self), r) == spec_w32_resume(*old(self), event),
    {
        match (self.phase, event) {
            (Win32Phase::SearchProgman(th), DesktopEvent::Handle(p)) => {
                self.phase = Win32Phase::SearchSpawn(th);
                DesktopAction::SpawnWorker(p)
            },
            (Win32Phase::SearchSpawn(th), DesktopEvent::Ack) => {
                if self.worker == 0 {
                    self.phase = Win32Phase::SearchTop(th);
                    DesktopAction::EnumTopWindows
                } else {
                    self.search_done(th)
                }
            },
            (Win32Phase::SearchTop(th), DesktopEvent::TopWindow(t)) => {
                self.phase = Win32Phase::SearchTopView(th, t);
                find(t, 0, ShellName::ShellDllDefView)
            },
            (Win32Phase::SearchTop(th), DesktopEvent::TopWindowsDone) => self.search_done(th),
            (Win32Phase::SearchTopView(th, t), DesktopEvent::Handle(v)) => {
                if v != 0 {
                    self.def_view = v;
                    self.view_host = t;
                    self.phase = Win32Phase::SearchFolder(th, t);
                    DesktopAction::FindWindow(
                        FindWindowQuery {
                            parent: v,
                            after: 0,
                            class: ShellName::SysListView32,
                            title: ShellName::FolderView,
                        },
                    )
                } else {
                    self.phase = Win32Phase::SearchTop(th);
                    DesktopAction::NextTopWindow
                }
            },
            (Win32Phase::SearchFolder(th, t), DesktopEvent::Handle(f)) => {
                self.folder_view = f;
                self.phase = Win32Phase::SearchWorker(th);
                find(0, t, ShellName::WorkerW)
            },
            (Win32Phase::SearchWorker(th), DesktopEvent::Handle(w)) => {
                self.worker = w;
                self.phase = Win32Phase::SearchTop(th);
                DesktopAction::StopEnumeration
            },
            (Win32Phase::FallbackProgman(child), DesktopEvent::Handle(p)) => {
                self.worker = p;
                self.attach(child)
            },
            (Win32Phase::SetParent, DesktopEvent::Handle(_)) => {
                self.phase = Win32Phase::FinalShow;
                DesktopAction::ShowWindow(self.worker, true)
            },
            (Win32Phase::FinalShow, DesktopEvent::Ack) => {
                self.phase = Win32Phase::Idle;
                DesktopAction::Finished
            },
            _ => DesktopAction::Ignored,
        }
    }
}

/// The enumeration of top-level windows stops at the first one that holds
/// the desktop view, after the worker window that follows it was taken.
pub proof fn law_enumeration_stops_at_desktop_view(
    m: Win32DesktopWindows,
    then: SearchThen,
    top: isize,
    view: isize,
    folder: isize,
    worker: isize,
)
    requires
        m.phase == Win32Phase::SearchTop(then),
        view != 0,
    ensures
        ({
            let (m1, a1) = spec_w32_resume(m, DesktopEvent::TopWindow(top));
            let (m2, a2) = spec_w32_resume(m1, DesktopEvent::Handle(view));
            let (m3, a3) = spec_w32_resume(m2, DesktopEvent::Handle(folder));
            let (m4, a4) = spec_w32_resume(m3, DesktopEvent::Handle(worker));
            &&& a3 == DesktopAction::FindWindow(query(0, top, ShellName::WorkerW))
            &&& a4 == DesktopAction::StopEnumeration
            &&& m4.worker == worker
            &&& m4.def_view == view
            &&& m4.view_host == top
            &&& m4.folder_view == folder
        }),
        spec_w32_resume(
            spec_w32_resume(m, DesktopEvent::TopWindow(top)).0,
            DesktopEvent::Handle(0),
        ) == (m, DesktopAction::NextTopWindow),
{
}

/// Where no worker window was found, windows are attached to the program
/// manager window.
pub proof fn law_attach_falls_back_to_program_manager(
    m: Win32DesktopWindows,
    child: isize,
    progman: isize,
)
    requires
        m.phase == Win32Phase::SearchTop(SearchThen::Setup(Some(child))),
        m.worker == 0,
    ensures
        ({
            let (m1, a1) = spec_w32_resume(m, DesktopEvent::TopWindowsDone);
            let (m2, a2) = spec_w32_resume(m1, DesktopEvent::Handle(progman));
            &&& a1 == DesktopAction::FindProgman
            &&& a2 == DesktopAction::SetParent(child, progman)
            &&& m2.worker == progman
        }),
{
}

} // verus!
