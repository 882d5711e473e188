//! Watching one library artifact on disk. Two interchangeable strategies
//! feed the server the same coarse event stream: a polling strategy that
//! compares modification timestamps at a fixed interval, and a strategy
//! riding the OS file-notification facility. The decisions of both live
//! here; the thread, timer and OS registration around them do not.

use vstd::prelude::*;
use vstd::string::StringExecFns;
use crate::paths::concat3;

verus! {

/// A coarse change to the watched artifact: it appeared, its contents
/// changed, or it vanished. No content travels with the event.
#[derive(Debug, Clone, Copy, PartialEq, Eq, Structural)]
pub enum WatcherEvent {
    Created,
    Changed,
    Destroyed,
}

/// The kinds of OS file notifications the runtime distinguishes; anything
/// else is ignored.
#[derive(Debug, Clone, Copy, PartialEq, Eq, Structural)]
pub enum NotifyKind {
    Create,
    Modify,
    Remove,
    Other,
}

/// How one poll round reads the artifact: the latest known modification
/// stamp, and what the fresh stat returned (`None` when the file or its
/// metadata is unavailable).
pub open spec fn spec_poll_step(last_modified: Option<u64>, stat: Option<u64>) -> (Option<
    WatcherEvent,
>, Option<u64>) {
    match (last_modified, stat) {
        (Some(lm), Some(m)) => if m != lm {
            (Some(WatcherEvent::Changed), Some(m))
        } else {
            (None, Some(lm))
        },
        (None, Some(m)) => (Some(WatcherEvent::Created), Some(m)),
        (Some(_), None) => (Some(WatcherEvent::Destroyed), None),
        (None, None) => (None, None),
    }
}

/// One round of the polling strategy. The first successful stat
/// establishes the baseline; a later stamp that differs emits `Changed`;
/// a failed stat emits `Destroyed` once; a stat succeeding again after
/// that emits `Created`.
pub fn poll_step(last_modified: Option<u64>, stat: Option<u64>) -> (r: (
    Option<WatcherEvent>,
    Option<u64>,
))
    ensures
        r == spec_poll_step(last_modified, stat),
        r.0 == Some(WatcherEvent::Changed) <==> (last_modified matches Some(lm) && stat
            matches Some(m) && m != lm),
        r.0 == Some(WatcherEvent::Created) <==> (last_modified is None && stat is Some),
        r.0 == Some(WatcherEvent::Destroyed) <==> (last_modified is Some && stat is None),
{
    match (last_modified, stat) {
        (Some(lm), Some(m)) => if m != lm {
            (Some(WatcherEvent::Changed), Some(m))
        } else {
            (None, Some(lm))
        },
        (None, Some(m)) => (Some(WatcherEvent::Created), Some(m)),
        (Some(_), None) => (Some(WatcherEvent::Destroyed), None),
        (None, None) => (None, None),
    }
}

/// How the notification strategy reads an OS event: creations, changes and
/// removals of the watched file map to the three watcher events, and every
/// other notification is dropped.
pub fn map_notify_kind(kind: NotifyKind) -> (r: Option<WatcherEvent>)
    ensures
        r == Some(WatcherEvent::Created) <==> kind == NotifyKind::Create,
        r == Some(WatcherEvent::Changed) <==> kind == NotifyKind::Modify,
        r == Some(WatcherEvent::Destroyed) <==> kind == NotifyKind::Remove,
        r is None <==> kind == NotifyKind::Other,
{
    match kind {
        NotifyKind::Create => Some(WatcherEvent::Created),
        NotifyKind::Modify => Some(WatcherEvent::Changed),
        NotifyKind::Remove => Some(WatcherEvent::Destroyed),
        NotifyKind::Other => None,
    }
}

/// A watcher strategy. Whatever else it does, it must refuse to start
/// against a path that does not resolve to a file.
pub trait Watcher {
    /// Checks the watched path before the strategy starts; `is_file` is
    /// whether the path resolves to a file at that moment.
    fn startup(&self, path: &String, is_file: bool) -> (r: Result<(), String>)
        ensures
            r is Ok <==> is_file,
            r matches Err(e) ==> e@ == "Input `"@ + path@ + "` must be a file"@,
    ;
}

/// Builds the startup error named in the watcher contract.
fn not_a_file_error(path: &String) -> (e: String)
    ensures
        e@ == "Input `"@ + path@ + "` must be a file"@,
{
    let mut e = String::from_str("Input `");
    e.append(path.as_str());
    e.append("` must be a file");
    e
}

/// The polling strategy: stat the file every `interval_ms` milliseconds
/// and compare modification stamps.
pub struct PollWatcher {
    pub interval_ms: u64,
}

impl PollWatcher {
    /// A polling watcher with the given interval between stats.
    pub fn new(interval_ms: u64) -> (r: PollWatcher)
        ensures
            r.interval_ms == interval_ms,
    {
        PollWatcher { interval_ms }
    }

    /// The whole startup decision of the polling strategy: it refuses a
    /// path that is not a file, a file whose metadata cannot be read, and
    /// one whose modification stamp cannot be read; otherwise that stamp
    /// becomes the baseline, so the worker never starts without one.
    /// `has_metadata` and `modified` are the startup stat's answers.
    pub fn startup_baseline(
        &self,
        path: &String,
        is_file: bool,
        has_metadata: bool,
        modified: Option<u64>,
    ) -> (r: Result<u64, String>)
        ensures
            r is Ok <==> is_file && has_metadata && modified is Some,
            r matches Ok(m) ==> modified == Some(m),
            !is_file ==> (r matches Err(e) && e@ == "Input `"@ + path@ + "` must be a file"@),
            is_file && !has_metadata ==> (r matches Err(e) && e@ == "Input `"@ + path@
                + "` could not get metadata"@),
            is_file && has_metadata && modified is None ==> (r matches Err(e) && e@ == "Input `"@
                + path@ + "` could not get last modified time"@),
    {
        if !is_file {
            Err(not_a_file_error(path))
        } else if !has_metadata {
            Err(concat3("Input `", path.as_str(), "` could not get metadata"))
        } else {
            match modified {
                Some(m) => Ok(m),
                None => Err(
                    concat3("Input `", path.as_str(), "` could not get last modified time"),
                ),
            }
        }
    }
}

impl Watcher for PollWatcher {
    fn startup(&self, path: &String, is_file: bool) -> (r: Result<(), String>) {
        if is_file {
            Ok(())
        } else {
            Err(not_a_file_error(path))
        }
    }
}

/// The notification strategy: register with the OS facility on the parent
/// directory and filter events down to the watched file.
pub struct NotifyWatcher;

impl NotifyWatcher {
    /// A notification watcher.
    pub fn new() -> (r: NotifyWatcher) {
        NotifyWatcher
    }

    /// The whole startup decision of the notification strategy: it refuses
    /// a path that is not a file or has no parent directory to register on,
    /// and reports an OS facility that could not be created or could not be
    /// attached. `created` and `attached` are the registration's outcomes,
    /// attempted only once the path checks pass.
    pub fn startup_outcome(
        &self,
        path: &String,
        is_file: bool,
        has_parent: bool,
        created: bool,
        attached: bool,
    ) -> (r: Result<(), String>)
        ensures
            r is Ok <==> is_file && has_parent && created && attached,
            !is_file ==> (r matches Err(e) && e@ == "Input `"@ + path@ + "` must be a file"@),
            is_file && !has_parent ==> (r matches Err(e) && e@ == "Failed to get path directory of `"@
                + path@ + "`"@),
            is_file && has_parent && !created ==> (r matches Err(e) && e@
                == "Failed to instantiate filesystem watcher"@),
            is_file && has_parent && created && !attached ==> (r matches Err(e) && e@
                == "Failed to attach filesystem watcher to file"@),
    {
        if !is_file {
            Err(not_a_file_error(path))
        } else if !has_parent {
            Err(concat3("Failed to get path directory of `", path.as_str(), "`"))
        } else if !created {
            Err(String::from_str("Failed to instantiate filesystem watcher"))
        } else if !attached {
            Err(String::from_str("Failed to attach filesystem watcher to file"))
        } else {
            Ok(())
        }
    }
}

impl Watcher for NotifyWatcher {
    fn startup(&self, path: &String, is_file: bool) -> (r: Result<(), String>) {
        if is_file {
            Ok(())
        } else {
            Err(not_a_file_error(path))
        }
    }
}

} // verus!
