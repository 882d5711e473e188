use hotbolt::message::{ClientMessage, ServerMessage};
use hotbolt::server::{ServerAction, ServerInput, ServerSession};
use hotbolt::watcher::WatcherEvent;

#[test]
fn fresh_server_has_no_state() {
    let s = ServerSession::new();
    assert!(s.last_state.is_none());
    assert!(!s.restarting);
    assert!(s.file_exists);
}

#[test]
fn changed_latches_and_asks_for_state() {
    let mut s = ServerSession::new();
    let a = s.on_watcher_event(WatcherEvent::Changed);
    assert_eq!(a, ServerAction::SendGetState);
    assert!(s.restarting);
}

#[test]
fn changed_while_restarting_is_collapsed() {
    let mut s = ServerSession::new();
    assert_eq!(s.on_watcher_event(WatcherEvent::Changed), ServerAction::SendGetState);
    // A second Changed during the in-progress swap sends no extra GetState.
    assert_eq!(s.on_watcher_event(WatcherEvent::Changed), ServerAction::Continue);
    assert!(s.restarting);
}

#[test]
fn created_and_destroyed_track_the_artifact() {
    let mut s = ServerSession::new();
    assert_eq!(s.on_watcher_event(WatcherEvent::Destroyed), ServerAction::Continue);
    assert!(!s.file_exists);
    assert!(!s.should_swap());
    assert!(!s.respawn_on_exit());
    assert_eq!(s.on_watcher_event(WatcherEvent::Created), ServerAction::Continue);
    assert!(s.file_exists);
    assert!(s.respawn_on_exit());
}

#[test]
fn set_state_is_saved_verbatim() {
    let mut s = ServerSession::new();
    let a = s.on_client_message(ClientMessage::SetState(Some(vec![1, 2, 3])));
    assert_eq!(a, ServerAction::Continue);
    assert_eq!(s.last_state, Some(vec![1, 2, 3]));
    assert_eq!(s.start_message(), ServerMessage::Start(Some(vec![1, 2, 3])));
}

#[test]
fn set_state_then_respawn_hands_back_the_same_bytes() {
    let mut s = ServerSession::new();
    s.on_client_message(ClientMessage::SetState(Some(vec![42])));
    s.on_client_message(ClientMessage::Restart);
    assert!(s.should_swap());
    let start = s.complete_respawn();
    assert_eq!(start, ServerMessage::Start(Some(vec![42])));
    assert!(!s.restarting);
}

#[test]
fn restart_request_closes_the_client() {
    let mut s = ServerSession::new();
    assert_eq!(s.on_client_message(ClientMessage::Restart), ServerAction::SendClose);
    assert!(s.restarting);
}

#[test]
fn set_state_while_restarting_closes_the_client() {
    let mut s = ServerSession::new();
    s.on_watcher_event(WatcherEvent::Changed);
    let a = s.on_client_message(ClientMessage::SetState(Some(vec![5])));
    assert_eq!(a, ServerAction::SendClose);
}

#[test]
fn hard_rebuild_scenario() {
    // A library that keeps no state: the artifact changes once; the server
    // fetches state, swaps, and the new client starts with no state at all.
    let mut s = ServerSession::new();
    let (sent, respawns) = s.process_inputs(vec![ServerInput::Watcher(WatcherEvent::Changed)]);
    assert_eq!(sent, vec![ServerMessage::GetState, ServerMessage::Start(None)]);
    assert_eq!(respawns, 1);
    assert_eq!(s.last_state, None);
}

#[test]
fn state_preserving_reload_scenario() {
    // The client asks for a reload carrying its state: the state arrives
    // first, then the restart request; the respawn hands the state back.
    let mut s = ServerSession::new();
    let (sent, respawns) = s.process_inputs(vec![
        ServerInput::FromClient(ClientMessage::SetState(Some(vec![0, 0, 0, 3]))),
        ServerInput::FromClient(ClientMessage::Restart),
    ]);
    assert_eq!(
        sent,
        vec![ServerMessage::Close, ServerMessage::Start(Some(vec![0, 0, 0, 3]))]
    );
    assert_eq!(respawns, 1);
}

#[test]
fn artifact_removal_scenario() {
    // The artifact vanishes: the reload latch may be set, but no respawn
    // happens until the artifact is back.
    let mut s = ServerSession::new();
    s.on_client_message(ClientMessage::SetState(Some(vec![9])));
    let (sent, respawns) = s.process_inputs(vec![
        ServerInput::Watcher(WatcherEvent::Destroyed),
        ServerInput::Watcher(WatcherEvent::Changed),
    ]);
    assert_eq!(sent, vec![ServerMessage::GetState]);
    assert_eq!(respawns, 0);
    assert!(!s.file_exists);
    // The artifact returns: the pending swap fires with the saved state.
    let (sent, respawns) = s.process_inputs(vec![ServerInput::Watcher(WatcherEvent::Created)]);
    assert_eq!(sent, vec![ServerMessage::Start(Some(vec![9]))]);
    assert_eq!(respawns, 1);
}

#[test]
fn rapid_changes_collapse_to_bounded_respawns() {
    let mut s = ServerSession::new();
    let n = 5;
    let mut inputs = Vec::new();
    for _ in 0..n {
        inputs.push(ServerInput::Watcher(WatcherEvent::Changed));
    }
    let (sent, respawns) = s.process_inputs(inputs);
    assert!(respawns <= n);
    // Every respawn carried some previously saved state (none was ever
    // set, so every Start carries None).
    for m in sent {
        if let ServerMessage::Start(p) = m {
            assert_eq!(p, None);
        }
    }
}

#[test]
fn latest_reply_wins() {
    // Two SetState replies in one burst: the respawn carries the newest.
    let mut s = ServerSession::new();
    let (sent, _) = s.process_inputs(vec![
        ServerInput::FromClient(ClientMessage::SetState(Some(vec![1]))),
        ServerInput::FromClient(ClientMessage::SetState(Some(vec![2]))),
        ServerInput::FromClient(ClientMessage::Restart),
    ]);
    assert_eq!(sent.last(), Some(&ServerMessage::Start(Some(vec![2]))));
    assert_eq!(s.last_state, Some(vec![2]));
}
