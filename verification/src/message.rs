//! The control-protocol messages exchanged between the server and the
//! client over the local stream socket, and the events user code raises
//! through the in-process facade.

use vstd::prelude::*;

verus! {

/// A message the server sends to its client. `Start` carries the saved
/// state bytes (if any) and is the first message of every session;
/// `GetState` asks the client for its current state; `Close` tells the
/// client to exit.
#[derive(Debug, PartialEq, Eq)]
pub enum ServerMessage {
    Start(Option<Vec<u8>>),
    GetState,
    Close,
}

/// A message the client sends to its server. `Restart` asks for a soft
/// restart; `SetState` hands the server the client's serialized state.
#[derive(Debug, PartialEq, Eq)]
pub enum ClientMessage {
    Restart,
    SetState(Option<Vec<u8>>),
}

/// A request user code raises through the server facade: restart with a
/// clean state, reload preserving the current state, or reload with the
/// supplied state bytes.
#[derive(Debug, PartialEq, Eq)]
pub enum SenderEvent {
    Restart,
    Reload,
    ReloadWith(Vec<u8>),
}

/// An event of the in-process runner loop: confirmation that a load may be
/// attempted, a restart discarding state, a reload keeping it, or a state
/// update.
#[derive(Debug, PartialEq, Eq)]
pub enum Event {
    /// Confirmation that it is probably safe to start, such as when a file
    /// was recently created.
    Start,
    /// Clear the current state and reload the library.
    Restart,
    /// Keep the current state and reload the library.
    Reload,
    /// Sets the current state.
    SetState(Vec<u8>),
}

} // verus!
