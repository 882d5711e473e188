//! The client's side of the protocol: a short-lived child process that
//! waits for `Start`, loads the library, runs user code, and answers the
//! server's state requests. User code reaches the server only through the
//! facade, which queues reload requests; the socket worker turns them into
//! protocol messages. The decisions live here; the socket, the loader and
//! the threads around them do not.

use vstd::prelude::*;
use vstd::slice::slice_to_vec;
use crate::codec::{clone_bytes, lemma_bytes_deep_view, ClientMessageView};
use crate::message::{ClientMessage, SenderEvent};

verus! {

/// What the client remembers: the state bytes received from `Start` and
/// not yet consumed by a run, whether `Start` has arrived at least once,
/// and whether a library is currently loaded.
pub struct ClientSession {
    pub pending_state: Option<Vec<u8>>,
    pub loaded: bool,
    pub library_loaded: bool,
}

/// What the client does next: keep waiting, load the library, or exit the
/// process to effect the swap.
#[derive(Debug, Clone, Copy, PartialEq, Eq, Structural)]
pub enum ClientAction {
    Wait,
    LoadLibrary,
    Exit,
}

impl ClientSession {
    /// A fresh client: no state, nothing loaded, `Start` not yet seen.
    pub fn new() -> (c: ClientSession)
        ensures
            c.pending_state is None,
            !c.loaded,
            !c.library_loaded,
    {
        ClientSession { pending_state: None, loaded: false, library_loaded: false }
    }

    /// `Start` arrived: the carried state (exactly as sent, and possibly
    /// absent) is stored for the next run, and loading may begin.
    pub fn on_start(&mut self, state: Option<Vec<u8>>) -> (a: ClientAction)
        ensures
            final(self).pending_state == state,
            final(self).loaded,
            final(self).library_loaded == old(self).library_loaded,
            a == ClientAction::LoadLibrary,
    {
        self.pending_state = state;
        self.loaded = true;
        ClientAction::LoadLibrary
    }

    /// The library finished loading, or failed to. A failure is not fatal:
    /// the client stays alive, waiting, and the next `Start` retries.
    pub fn on_load_result(&mut self, ok: bool) -> (a: ClientAction)
        ensures
            final(self).library_loaded == ok,
            final(self).pending_state == old(self).pending_state,
            final(self).loaded == old(self).loaded,
            a == ClientAction::Wait,
    {
        self.library_loaded = ok;
        ClientAction::Wait
    }

    /// `GetState` arrived; `serialized` is what the library's serialize
    /// entry returned. A non-empty image is sent back verbatim; an empty
    /// image means serialization failed and no state is available, so
    /// nothing is sent and the server's saved state stays as it was.
    pub fn on_get_state(&self, serialized: Vec<u8>) -> (reply: Option<ClientMessage>)
        ensures
            serialized@.len() > 0 ==> (reply matches Some(m) && m@
                == ClientMessageView::SetState(Some(serialized@))),
            serialized@.len() == 0 ==> reply is None,
    {
        proof {
            lemma_bytes_deep_view(&serialized);
        }
        if serialized.len() > 0 {
            Some(ClientMessage::SetState(Some(serialized)))
        } else {
            None
        }
    }

    /// `Close` arrived: the client exits the process; unloading the library
    /// and dropping state happen on the way out.
    pub fn on_close(&self) -> (a: ClientAction)
        ensures
            a == ClientAction::Exit,
    {
        ClientAction::Exit
    }

    /// The byte image handed to the library's state constructor for the
    /// next run: the pending state exactly as received, or an empty image
    /// when none was carried — an empty state passes through unchanged.
    pub fn run_state(&self) -> (s: Vec<u8>)
        ensures
            self.pending_state matches Some(b) ==> s@ == b@,
            self.pending_state is None ==> s@.len() == 0,
    {
        match &self.pending_state {
            Some(b) => clone_bytes(b),
            None => Vec::new(),
        }
    }
}

/// The mathematical image of a facade request.
pub enum SenderEventView {
    Restart,
    Reload,
    ReloadWith(Seq<u8>),
}

impl View for SenderEvent {
    type V = SenderEventView;

    open spec fn view(&self) -> SenderEventView {
        match self {
            SenderEvent::Restart => SenderEventView::Restart,
            SenderEvent::Reload => SenderEventView::Reload,
            SenderEvent::ReloadWith(b) => SenderEventView::ReloadWith(b@),
        }
    }
}

impl DeepView for SenderEvent {
    type V = SenderEventView;

    open spec fn deep_view(&self) -> SenderEventView {
        self.view()
    }
}

/// The server facade handed to user code: each call queues one request for
/// the socket worker, in the order made.
pub trait Server {
    /// The requests queued so far, oldest first.
    spec fn sent(&self) -> Seq<SenderEventView>;

    /// Queues a restart with a clean state.
    fn restart(&mut self)
        ensures
            final(self).sent() == old(self).sent().push(SenderEventView::Restart),
    ;

    /// Queues a reload that preserves the current state.
    fn reload(&mut self)
        ensures
            final(self).sent() == old(self).sent().push(SenderEventView::Reload),
    ;

    /// Queues a reload that uses the supplied state bytes.
    fn reload_with(&mut self, state: &[u8])
        ensures
            final(self).sent() == old(self).sent().push(SenderEventView::ReloadWith(state@)),
    ;
}

/// The facade implementation the client hands to user code: requests are
/// queued in order and drained by the socket worker.
pub struct SenderServer {
    pub sender: Vec<SenderEvent>,
}

impl SenderServer {
    /// An empty queue.
    pub fn new() -> (s: SenderServer)
        ensures
            s.sender@.len() == 0,
    {
        SenderServer { sender: Vec::new() }
    }

    /// Queues one request.
    pub fn send(&mut self, event: SenderEvent)
        ensures
            final(self).sender@ == old(self).sender@.push(event),
    {
        self.sender.push(event);
    }
}

impl Server for SenderServer {
    open spec fn sent(&self) -> Seq<SenderEventView> {
        self.sender.deep_view()
    }

    fn restart(&mut self) {
        self.send(SenderEvent::Restart);
        proof {
            assert(self.sender.deep_view() =~= old(self).sender.deep_view().push(
                SenderEventView::Restart,
            ));
        }
    }

    fn reload(&mut self) {
        self.send(SenderEvent::Reload);
        proof {
            assert(self.sender.deep_view() =~= old(self).sender.deep_view().push(
                SenderEventView::Reload,
            ));
        }
    }

    fn reload_with(&mut self, state: &[u8]) {
        let v = slice_to_vec(state);
        self.send(SenderEvent::ReloadWith(v));
        proof {
            assert(self.sender.deep_view() =~= old(self).sender.deep_view().push(
                SenderEventView::ReloadWith(state@),
            ));
        }
    }
}

/// The protocol messages one facade request becomes: the state to carry
/// over (none for a restart, the current image for a reload, the supplied
/// bytes for a reload-with), then the restart request itself.
pub open spec fn spec_facade_messages(e: SenderEventView, current: Seq<u8>) -> Seq<
    ClientMessageView,
> {
    match e {
        SenderEventView::Restart => seq![
            ClientMessageView::SetState(None),
            ClientMessageView::Restart,
        ],
        SenderEventView::Reload => seq![
            ClientMessageView::SetState(Some(current)),
            ClientMessageView::Restart,
        ],
        SenderEventView::ReloadWith(b) => seq![
            ClientMessageView::SetState(Some(b)),
            ClientMessageView::Restart,
        ],
    }
}

/// Turns one facade request into its protocol messages; `current` is the
/// state image fetched synchronously from the library for a reload. The
/// state always travels before the restart request.
pub fn on_facade_event(e: SenderEvent, current: Vec<u8>) -> (msgs: Vec<ClientMessage>)
    ensures
        msgs.deep_view() == spec_facade_messages(e@, current@),
{
    proof {
        lemma_bytes_deep_view(&current);
        match e {
            SenderEvent::ReloadWith(ref b) => lemma_bytes_deep_view(b),
            _ => (),
        }
    }
    let mut msgs: Vec<ClientMessage> = Vec::new();
    match e {
        SenderEvent::Restart => {
            msgs.push(ClientMessage::SetState(None));
            msgs.push(ClientMessage::Restart);
        }
        SenderEvent::Reload => {
            msgs.push(ClientMessage::SetState(Some(current)));
            msgs.push(ClientMessage::Restart);
        }
        SenderEvent::ReloadWith(b) => {
            msgs.push(ClientMessage::SetState(Some(b)));
            msgs.push(ClientMessage::Restart);
        }
    }
    proof {
        assert(msgs.deep_view() =~= spec_facade_messages(e@, current@));
    }
    msgs
}

} // verus!
