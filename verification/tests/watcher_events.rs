use hotbolt::message::ServerMessage;
use hotbolt::server::{ServerInput, ServerSession};
use hotbolt::watcher::{
    map_notify_kind, poll_step, NotifyKind, NotifyWatcher, PollWatcher, Watcher, WatcherEvent,
};

#[test]
fn poll_baseline_sees_no_event() {
    assert_eq!(poll_step(Some(10), Some(10)), (None, Some(10)));
}

#[test]
fn poll_new_stamp_is_a_change() {
    assert_eq!(poll_step(Some(10), Some(11)), (Some(WatcherEvent::Changed), Some(11)));
}

#[test]
fn poll_failed_stat_is_a_destruction() {
    assert_eq!(poll_step(Some(10), None), (Some(WatcherEvent::Destroyed), None));
}

#[test]
fn poll_recovery_is_a_creation() {
    // After a destruction the baseline is gone; the next successful stat
    // reports the file as created again.
    let (event, baseline) = poll_step(Some(10), None);
    assert_eq!(event, Some(WatcherEvent::Destroyed));
    assert_eq!(poll_step(baseline, Some(12)), (Some(WatcherEvent::Created), Some(12)));
}

#[test]
fn poll_stays_quiet_while_the_file_is_missing() {
    assert_eq!(poll_step(None, None), (None, None));
}

#[test]
fn notify_kinds_map_to_watcher_events() {
    assert_eq!(map_notify_kind(NotifyKind::Create), Some(WatcherEvent::Created));
    assert_eq!(map_notify_kind(NotifyKind::Modify), Some(WatcherEvent::Changed));
    assert_eq!(map_notify_kind(NotifyKind::Remove), Some(WatcherEvent::Destroyed));
    assert_eq!(map_notify_kind(NotifyKind::Other), None);
}

#[test]
fn watchers_refuse_paths_that_are_not_files() {
    // Started against a path that is not a file, both strategies fail
    // construction at once.
    let path = "not/a/file".to_string();
    let poll = PollWatcher::new(500);
    let err = poll.startup(&path, false);
    assert_eq!(err, Err("Input `not/a/file` must be a file".to_string()));
    let notify = NotifyWatcher::new();
    assert_eq!(
        notify.startup(&path, false),
        Err("Input `not/a/file` must be a file".to_string())
    );
    assert_eq!(poll.startup(&path, true), Ok(()));
    assert_eq!(notify.startup(&path, true), Ok(()));
}

#[test]
fn poll_watcher_keeps_its_interval() {
    assert_eq!(PollWatcher::new(2000).interval_ms, 2000);
}

#[test]
fn poll_startup_refuses_unreadable_files() {
    // Besides the non-file refusal, the polling strategy refuses to start
    // when the file's metadata or modification stamp cannot be read; on
    // success the stamp becomes the worker's baseline.
    let path = "lib.so".to_string();
    let poll = PollWatcher::new(500);
    assert_eq!(
        poll.startup_baseline(&path, false, false, None),
        Err("Input `lib.so` must be a file".to_string())
    );
    assert_eq!(
        poll.startup_baseline(&path, true, false, None),
        Err("Input `lib.so` could not get metadata".to_string())
    );
    assert_eq!(
        poll.startup_baseline(&path, true, true, None),
        Err("Input `lib.so` could not get last modified time".to_string())
    );
    assert_eq!(poll.startup_baseline(&path, true, true, Some(41)), Ok(41));
}

#[test]
fn notify_startup_refuses_failed_registration() {
    // Besides the non-file refusal, the notification strategy refuses a
    // path without a parent directory and reports an OS facility that
    // could not be created or attached.
    let path = "dir/lib.so".to_string();
    let notify = NotifyWatcher::new();
    assert_eq!(
        notify.startup_outcome(&path, false, true, true, true),
        Err("Input `dir/lib.so` must be a file".to_string())
    );
    assert_eq!(
        notify.startup_outcome(&path, true, false, false, false),
        Err("Failed to get path directory of `dir/lib.so`".to_string())
    );
    assert_eq!(
        notify.startup_outcome(&path, true, true, false, false),
        Err("Failed to instantiate filesystem watcher".to_string())
    );
    assert_eq!(
        notify.startup_outcome(&path, true, true, true, false),
        Err("Failed to attach filesystem watcher to file".to_string())
    );
    assert_eq!(notify.startup_outcome(&path, true, true, true, true), Ok(()));
}

#[test]
fn poll_and_notify_agree_on_a_rebuild() {
    // One artifact history — built once, then rebuilt — seen by both
    // strategies: the event streams coincide and drive the server to the
    // same messages.
    // Polling: baseline stamp 1, then stamp 2 appears.
    let mut poll_events = Vec::new();
    let mut baseline = Some(1u64);
    for stat in [Some(1u64), Some(2)] {
        let (event, next) = poll_step(baseline, stat);
        baseline = next;
        if let Some(e) = event {
            poll_events.push(e);
        }
    }
    // Notification: one modify notification arrives.
    let mut notify_events = Vec::new();
    for kind in [NotifyKind::Other, NotifyKind::Modify] {
        if let Some(e) = map_notify_kind(kind) {
            notify_events.push(e);
        }
    }
    assert_eq!(poll_events, notify_events);
    let mut via_poll = ServerSession::new();
    let mut via_notify = ServerSession::new();
    let inputs_poll: Vec<ServerInput> =
        poll_events.into_iter().map(ServerInput::Watcher).collect();
    let inputs_notify: Vec<ServerInput> =
        notify_events.into_iter().map(ServerInput::Watcher).collect();
    let (sent_poll, respawns_poll) = via_poll.process_inputs(inputs_poll);
    let (sent_notify, respawns_notify) = via_notify.process_inputs(inputs_notify);
    assert_eq!(sent_poll, sent_notify);
    assert_eq!(respawns_poll, respawns_notify);
    assert_eq!(sent_poll, vec![ServerMessage::GetState, ServerMessage::Start(None)]);
}
