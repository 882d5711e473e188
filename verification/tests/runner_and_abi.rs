use hotbolt::abi::{version_compatible, Compatibility, RawFfiArray, ENTRY_RUN, ENTRY_VERSION, SERVER_VERSION};
use hotbolt::message::Event;
use hotbolt::runner::{map_notify_event, run, RunnerAction, RunnerState};
use hotbolt::watcher::NotifyKind;

#[test]
fn empty_ffi_array_is_all_zeroes() {
    let a = RawFfiArray::empty();
    assert_eq!(a.data, 0);
    assert_eq!(a.len, 0);
    assert_eq!(a.capacity, 0);
    assert!(a.is_empty());
}

#[test]
fn non_empty_ffi_array_is_not_empty() {
    let a = RawFfiArray { data: 0x1000, len: 3, capacity: 4 };
    assert!(!a.is_empty());
}

#[test]
fn only_the_known_abi_version_is_accepted() {
    assert!(version_compatible(SERVER_VERSION));
    assert!(!version_compatible(SERVER_VERSION.wrapping_add(1)));
}

#[test]
fn entry_symbols_carry_the_abi_prefix() {
    assert_eq!(ENTRY_RUN, "hotbolt_entry_run");
    assert_eq!(ENTRY_VERSION, "hotbolt_entry_version");
}

#[test]
fn runner_restart_discards_state() {
    let mut s = RunnerState::new();
    run(&mut s, Event::SetState(vec![1]));
    let a = run(&mut s, Event::Restart);
    assert_eq!(a, RunnerAction::ReloadLibrary);
    assert_eq!(s.state, None);
}

#[test]
fn runner_reload_keeps_state() {
    let mut s = RunnerState::new();
    run(&mut s, Event::SetState(vec![1, 2]));
    let a = run(&mut s, Event::Reload);
    assert_eq!(a, RunnerAction::ReloadLibrary);
    assert_eq!(s.state, Some(vec![1, 2]));
}

#[test]
fn runner_ignores_start_while_running() {
    let mut s = RunnerState::new();
    assert_eq!(run(&mut s, Event::Start), RunnerAction::KeepRunning);
}

#[test]
fn runner_retries_on_start_after_a_failed_load() {
    let mut s = RunnerState::new();
    s.mark_load_failed();
    assert_eq!(run(&mut s, Event::Start), RunnerAction::ReloadLibrary);
    assert!(!s.load_failed);
}

#[test]
fn runner_discards_everything_but_start_while_waiting() {
    // After a failed load only a fresh Start may retry: a user-requested
    // restart or reload must not re-load a known-broken artifact, and a
    // state update is not taken either.
    let mut s = RunnerState::new();
    run(&mut s, Event::SetState(vec![5]));
    s.mark_load_failed();
    assert_eq!(run(&mut s, Event::Restart), RunnerAction::KeepRunning);
    assert!(s.load_failed);
    assert_eq!(s.state, Some(vec![5]));
    assert_eq!(run(&mut s, Event::Reload), RunnerAction::KeepRunning);
    assert!(s.load_failed);
    assert_eq!(run(&mut s, Event::SetState(vec![9])), RunnerAction::KeepRunning);
    assert_eq!(s.state, Some(vec![5]));
    assert_eq!(run(&mut s, Event::Start), RunnerAction::ReloadLibrary);
    assert!(!s.load_failed);
}

#[test]
fn runner_notification_mapping() {
    assert_eq!(map_notify_event(NotifyKind::Create), Some(Event::Start));
    assert_eq!(map_notify_event(NotifyKind::Modify), Some(Event::Reload));
    assert_eq!(map_notify_event(NotifyKind::Remove), None);
    assert_eq!(map_notify_event(NotifyKind::Other), None);
}

struct TaggedBuild;

impl Compatibility for TaggedBuild {
    fn version() -> &'static [u8] {
        &[1, 0]
    }
}

#[test]
fn only_the_identical_tag_is_compatible_by_default() {
    assert!(TaggedBuild::is_compatible(&[1, 0]));
    assert!(!TaggedBuild::is_compatible(&[1, 1]));
    assert!(!TaggedBuild::is_compatible(&[1]));
    assert!(!TaggedBuild::is_compatible(&[]));
}

#[test]
fn runner_set_state_keeps_running() {
    let mut s = RunnerState::new();
    assert_eq!(run(&mut s, Event::SetState(vec![7])), RunnerAction::KeepRunning);
    assert_eq!(s.state, Some(vec![7]));
}
