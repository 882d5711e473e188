//! The in-process runner: an earlier, single-process way of running user
//! code, where the watcher feeds events straight to the loop that holds
//! the loaded library. Its decisions — when to reload the library and what
//! happens to the kept state — live here; the loader and the channel
//! plumbing do not.

use vstd::prelude::*;
use crate::message::Event;
use crate::watcher::NotifyKind;

verus! {

/// How the in-process runner reads an OS file notification: a creation is
/// the confirmation that a load may be attempted, a modification asks for
/// a reload that keeps the state, and everything else — removals included —
/// is dropped.
pub fn map_notify_event(kind: NotifyKind) -> (r: Option<Event>)
    ensures
        r == Some(Event::Start) <==> kind == NotifyKind::Create,
        r == Some(Event::Reload) <==> kind == NotifyKind::Modify,
        r is None <==> kind == NotifyKind::Remove || kind == NotifyKind::Other,
{
    match kind {
        NotifyKind::Create => Some(Event::Start),
        NotifyKind::Modify => Some(Event::Reload),
        NotifyKind::Remove => None,
        NotifyKind::Other => None,
    }
}

/// What the runner remembers: the kept state bytes, and whether the last
/// load attempt failed (after a failure only a fresh `Start` may retry).
pub struct RunnerState {
    pub state: Option<Vec<u8>>,
    pub load_failed: bool,
}

/// What the runner loop does next: keep invoking the loaded library, or
/// drop it and load the artifact anew.
#[derive(Debug, Clone, Copy, PartialEq, Eq, Structural)]
pub enum RunnerAction {
    KeepRunning,
    ReloadLibrary,
}

impl RunnerState {
    /// A fresh runner: no state, no failed load.
    pub fn new() -> (r: RunnerState)
        ensures
            r.state is None,
            !r.load_failed,
    {
        RunnerState { state: None, load_failed: false }
    }

    /// A load attempt failed: the runner waits until an event confirms a
    /// new artifact before retrying.
    pub fn mark_load_failed(&mut self)
        ensures
            final(self).load_failed,
            final(self).state == old(self).state,
    {
        self.load_failed = true;
    }
}

/// One step of the runner loop. While the last load stands failed, only
/// `Start` — evidence of a new artifact — does anything: it clears the
/// failure and retries the load; every other event is discarded, so a
/// user-requested restart cannot re-load a known-broken artifact.
/// Otherwise `Start` is ignored, `Restart` clears the state and reloads,
/// `Reload` keeps the state and reloads, and `SetState` replaces the state
/// and keeps running.
pub fn run(s: &mut RunnerState, event: Event) -> (a: RunnerAction)
    ensures
        old(s).load_failed && !(event matches Event::Start) ==> *final(s) == *old(s) && a
            == RunnerAction::KeepRunning,
        match event {
            Event::Start => final(s).state == old(s).state && !final(s).load_failed && a == (
            if old(s).load_failed {
                RunnerAction::ReloadLibrary
            } else {
                RunnerAction::KeepRunning
            }),
            Event::Restart => !old(s).load_failed ==> final(s).state is None
                && !final(s).load_failed && a == RunnerAction::ReloadLibrary,
            Event::Reload => !old(s).load_failed ==> final(s).state == old(s).state
                && !final(s).load_failed && a == RunnerAction::ReloadLibrary,
            Event::SetState(b) => !old(s).load_failed ==> final(s).state == Some(b)
                && !final(s).load_failed && a == RunnerAction::KeepRunning,
        },
{
    match event {
        Event::Start => {
            if s.load_failed {
                s.load_failed = false;
                RunnerAction::ReloadLibrary
            } else {
                RunnerAction::KeepRunning
            }
        }
        Event::Restart => {
            if s.load_failed {
                RunnerAction::KeepRunning
            } else {
                s.state = None;
                RunnerAction::ReloadLibrary
            }
        }
        Event::Reload => {
            if s.load_failed {
                RunnerAction::KeepRunning
            } else {
                RunnerAction::ReloadLibrary
            }
        }
        Event::SetState(b) => {
            if s.load_failed {
                RunnerAction::KeepRunning
            } else {
                s.state = Some(b);
                RunnerAction::KeepRunning
            }
        }
    }
}

} // verus!
