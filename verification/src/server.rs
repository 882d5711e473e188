//! The server's reload state machine. The server owns the watcher, the
//! child client process and the authoritative copy of the last saved state
//! bytes. Its steady-state loop reacts to watcher events and client
//! messages; when a swap is due it respawns the client and hands it the
//! saved state. The socket, process and file plumbing around this machine
//! lives outside the library and merely performs the actions decided here.

use vstd::prelude::*;
use crate::codec::{clone_opt_bytes, ServerMessageView};
use crate::message::{ClientMessage, ServerMessage};
use crate::watcher::WatcherEvent;

verus! {

/// What the server remembers across inputs: the authoritative saved state
/// (absent until a client hands one over), whether a reload is latched,
/// and whether the artifact currently exists on disk.
pub struct ServerSession {
    pub last_state: Option<Vec<u8>>,
    pub restarting: bool,
    pub file_exists: bool,
}

/// One input of the server's steady-state loop: a watcher event or a
/// message from the client.
#[derive(Debug, PartialEq, Eq)]
pub enum ServerInput {
    Watcher(WatcherEvent),
    FromClient(ClientMessage),
}

/// What the server does in reaction to one input: nothing, ask the client
/// for its state, or tell it to close.
#[derive(Debug, Clone, Copy, PartialEq, Eq, Structural)]
pub enum ServerAction {
    Continue,
    SendGetState,
    SendClose,
}

/// One step of the steady-state loop.
///
/// Watcher events: `Created` and `Destroyed` track the artifact's
/// existence; `Changed` latches a reload and asks the client for its state,
/// unless a reload is already latched, in which case the event is collapsed
/// into the swap in progress. Client messages: `Restart` latches a reload
/// and closes the client; `SetState` replaces the saved state, and closes
/// the client if a reload is latched.
pub open spec fn spec_step(s: ServerSession, input: ServerInput) -> (ServerSession, ServerAction) {
    match input {
        ServerInput::Watcher(ev) => match ev {
            WatcherEvent::Created => (
                ServerSession { last_state: s.last_state, restarting: s.restarting, file_exists: true },
                ServerAction::Continue,
            ),
            WatcherEvent::Changed => if s.restarting {
                (s, ServerAction::Continue)
            } else {
                (
                    ServerSession { last_state: s.last_state, restarting: true, file_exists: s.file_exists },
                    ServerAction::SendGetState,
                )
            },
            WatcherEvent::Destroyed => (
                ServerSession { last_state: s.last_state, restarting: s.restarting, file_exists: false },
                ServerAction::Continue,
            ),
        },
        ServerInput::FromClient(m) => match m {
            ClientMessage::Restart => (
                ServerSession { last_state: s.last_state, restarting: true, file_exists: s.file_exists },
                ServerAction::SendClose,
            ),
            ClientMessage::SetState(b) => (
                ServerSession { last_state: b, restarting: s.restarting, file_exists: s.file_exists },
                if s.restarting {
                    ServerAction::SendClose
                } else {
                    ServerAction::Continue
                },
            ),
        },
    }
}

/// Whether a swap is due: a reload is latched and the artifact is present.
pub open spec fn spec_swap(s: ServerSession) -> bool {
    s.restarting && s.file_exists
}

/// The messages one action sends to the client.
pub open spec fn action_messages(a: ServerAction) -> Seq<ServerMessageView> {
    match a {
        ServerAction::Continue => Seq::empty(),
        ServerAction::SendGetState => seq![ServerMessageView::GetState],
        ServerAction::SendClose => seq![ServerMessageView::Close],
    }
}

/// The session state after a burst of inputs, with no respawn in between.
pub open spec fn spec_run_state(s: ServerSession, inputs: Seq<ServerInput>) -> ServerSession
    decreases inputs.len(),
{
    if inputs.len() == 0 {
        s
    } else {
        spec_run_state(spec_step(s, inputs[0]).0, inputs.drop_first())
    }
}

/// The messages a burst of inputs sends to the client, with no respawn in
/// between.
pub open spec fn spec_run_sent(s: ServerSession, inputs: Seq<ServerInput>) -> Seq<
    ServerMessageView,
>
    decreases inputs.len(),
{
    if inputs.len() == 0 {
        Seq::empty()
    } else {
        action_messages(spec_step(s, inputs[0]).1) + spec_run_sent(
            spec_step(s, inputs[0]).0,
            inputs.drop_first(),
        )
    }
}

/// Everything one client session receives: the `Start` that spawned it,
/// then whatever the steady-state loop sends.
pub open spec fn session_messages(s: ServerSession, inputs: Seq<ServerInput>) -> Seq<
    ServerMessageView,
> {
    seq![ServerMessageView::Start(s.last_state.deep_view())] + spec_run_sent(s, inputs)
}

/// A full supervisor run: state, messages sent (respawn `Start`s included),
/// and how many respawns happened.
pub struct ServerRunResult {
    pub state: ServerSession,
    pub sent: Seq<ServerMessageView>,
    pub respawns: nat,
}

/// The supervisor over a burst of inputs: after each input, if a swap is
/// due, the client is killed and respawned with the saved state, and the
/// reload latch clears.
pub open spec fn spec_run_supervisor(s: ServerSession, inputs: Seq<ServerInput>) -> ServerRunResult
    decreases inputs.len(),
{
    if inputs.len() == 0 {
        ServerRunResult { state: s, sent: Seq::empty(), respawns: 0 }
    } else {
        let (s1, a) = spec_step(s, inputs[0]);
        if spec_swap(s1) {
            let s2 = ServerSession {
                last_state: s1.last_state,
                restarting: false,
                file_exists: s1.file_exists,
            };
            let rest = spec_run_supervisor(s2, inputs.drop_first());
            ServerRunResult {
                state: rest.state,
                sent: action_messages(a) + seq![
                    ServerMessageView::Start(s1.last_state.deep_view()),
                ] + rest.sent,
                respawns: rest.respawns + 1,
            }
        } else {
            let rest = spec_run_supervisor(s1, inputs.drop_first());
            ServerRunResult {
                state: rest.state,
                sent: action_messages(a) + rest.sent,
                respawns: rest.respawns,
            }
        }
    }
}

/// The payload of the most recent `SetState` among the inputs, or the
/// already saved state if none arrived.
pub open spec fn latest_state(inputs: Seq<ServerInput>, saved: Option<Seq<u8>>) -> Option<Seq<u8>>
    decreases inputs.len(),
{
    if inputs.len() == 0 {
        saved
    } else {
        let saved1 = match inputs[0] {
            ServerInput::FromClient(ClientMessage::SetState(b)) => b.deep_view(),
            _ => saved,
        };
        latest_state(inputs.drop_first(), saved1)
    }
}

impl ServerSession {
    /// A fresh server: nothing saved, no reload latched, the artifact was
    /// just resolved so it exists.
    pub fn new() -> (s: ServerSession)
        ensures
            s.last_state is None,
            !s.restarting,
            s.file_exists,
    {
        ServerSession { last_state: None, restarting: false, file_exists: true }
    }

    /// Reacts to one watcher event.
    pub fn on_watcher_event(&mut self, ev: WatcherEvent) -> (a: ServerAction)
        ensures
            (*final(self), a) == spec_step(*old(self), ServerInput::Watcher(ev)),
            final(self).last_state == old(self).last_state,
            old(self).restarting ==> final(self).restarting,
    {
        match ev {
            WatcherEvent::Created => {
                self.file_exists = true;
                ServerAction::Continue
            }
            WatcherEvent::Changed => {
                if self.restarting {
                    ServerAction::Continue
                } else {
                    self.restarting = true;
                    ServerAction::SendGetState
                }
            }
            WatcherEvent::Destroyed => {
                self.file_exists = false;
                ServerAction::Continue
            }
        }
    }

    /// Reacts to one message from the client. A `SetState` payload becomes
    /// the authoritative saved state, exactly as sent.
    pub fn on_client_message(&mut self, m: ClientMessage) -> (a: ServerAction)
        ensures
            (*final(self), a) == spec_step(*old(self), ServerInput::FromClient(m)),
            m matches ClientMessage::SetState(b) ==> final(self).last_state == b,
            old(self).restarting ==> final(self).restarting,
    {
        match m {
            ClientMessage::Restart => {
                self.restarting = true;
                ServerAction::SendClose
            }
            ClientMessage::SetState(b) => {
                self.last_state = b;
                if self.restarting {
                    ServerAction::SendClose
                } else {
                    ServerAction::Continue
                }
            }
        }
    }

    /// Whether a swap is due now: a reload is latched and the artifact is
    /// present. While the artifact is missing this is false, whatever else
    /// happens.
    pub fn should_swap(&self) -> (r: bool)
        ensures
            r == spec_swap(*self),
    {
        self.restarting && self.file_exists
    }

    /// Whether an exited client may be respawned: only if the artifact
    /// exists; otherwise the server waits for the next `Created`.
    pub fn respawn_on_exit(&self) -> (r: bool)
        ensures
            r == self.file_exists,
    {
        self.file_exists
    }

    /// The `Start` a freshly spawned client receives: exactly the saved
    /// state bytes, or nothing when none were ever saved.
    pub fn start_message(&self) -> (m: ServerMessage)
        ensures
            m@ == ServerMessageView::Start(self.last_state.deep_view()),
    {
        ServerMessage::Start(clone_opt_bytes(&self.last_state))
    }

    /// Performs the respawn bookkeeping once a swap is due: the reload
    /// latch clears, the saved state is untouched, and the new client's
    /// `Start` carries exactly that saved state.
    pub fn complete_respawn(&mut self) -> (m: ServerMessage)
        requires
            old(self).file_exists,
        ensures
            !final(self).restarting,
            final(self).last_state == old(self).last_state,
            final(self).file_exists == old(self).file_exists,
            m@ == ServerMessageView::Start(old(self).last_state.deep_view()),
    {
        self.restarting = false;
        ServerMessage::Start(clone_opt_bytes(&self.last_state))
    }

    /// Drives the steady-state loop over a burst of inputs, respawning the
    /// client whenever a swap becomes due: returns every message sent to
    /// the client (respawn `Start`s included) and how many respawns
    /// happened.
    pub fn process_inputs(&mut self, inputs: Vec<ServerInput>) -> (r: (Vec<ServerMessage>, usize))
        ensures
            ({
                let run = spec_run_supervisor(*old(self), inputs@);
                &&& *final(self) == run.state
                &&& r.0.deep_view() == run.sent
                &&& r.1 == run.respawns
            }),
    {
        let ghost s0 = *self;
        let ghost all = inputs@;
        let mut inputs = inputs;
        let mut out: Vec<ServerMessage> = Vec::new();
        let mut respawns: usize = 0;
        let n = inputs.len();
        proof {
            assert(out.deep_view() =~= Seq::<ServerMessageView>::empty());
            assert(all.len() == n);
        }
        while inputs.len() > 0
            invariant
                all.len() <= usize::MAX,
                respawns <= all.len() - inputs@.len(),
                spec_run_supervisor(s0, all).state == spec_run_supervisor(*self, inputs@).state,
                spec_run_supervisor(s0, all).sent == out.deep_view() + spec_run_supervisor(
                    *self,
                    inputs@,
                ).sent,
                spec_run_supervisor(s0, all).respawns == respawns + spec_run_supervisor(
                    *self,
                    inputs@,
                ).respawns,
            decreases inputs@.len(),
        {
            let ghost pre = *self;
            let ghost rem = inputs@;
            let ghost out_pre = out.deep_view();
            let inp = inputs.remove(0);
            let ghost ginp = rem[0];
            proof {
                assert(inputs@ =~= rem.drop_first());
            }
            let a = match inp {
                ServerInput::Watcher(ev) => self.on_watcher_event(ev),
                ServerInput::FromClient(m) => self.on_client_message(m),
            };
            proof {
                assert((*self, a) == spec_step(pre, ginp));
            }
            match a {
                ServerAction::Continue => {}
                ServerAction::SendGetState => {
                    out.push(ServerMessage::GetState);
                }
                ServerAction::SendClose => {
                    out.push(ServerMessage::Close);
                }
            }
            proof {
                assert(out.deep_view() =~= out_pre + action_messages(a));
            }
            let ghost s1 = *self;
            if self.should_swap() {
                let ghost out_mid = out.deep_view();
                let m = self.complete_respawn();
                out.push(m);
                respawns = respawns + 1;
                proof {
                    assert(*self == (ServerSession {
                        last_state: s1.last_state,
                        restarting: false,
                        file_exists: s1.file_exists,
                    }));
                    assert(out.deep_view() =~= out_mid + seq![
                        ServerMessageView::Start(s1.last_state.deep_view()),
                    ]);
                    assert(out.deep_view() =~= out_pre + action_messages(a) + seq![
                        ServerMessageView::Start(s1.last_state.deep_view()),
                    ]);
                    let run_pre = spec_run_supervisor(pre, rem);
                    let run_post = spec_run_supervisor(*self, inputs@);
                    assert(run_pre.sent =~= action_messages(a) + seq![
                        ServerMessageView::Start(s1.last_state.deep_view()),
                    ] + run_post.sent);
                    assert(spec_run_supervisor(s0, all).sent =~= out.deep_view() + run_post.sent);
                }
            } else {
                proof {
                    let run_pre = spec_run_supervisor(pre, rem);
                    let run_post = spec_run_supervisor(*self, inputs@);
                    assert(run_pre.sent =~= action_messages(a) + run_post.sent);
                    assert(spec_run_supervisor(s0, all).sent =~= out.deep_view() + run_post.sent);
                }
            }
        }
        proof {
            assert(spec_run_supervisor(s0, all).sent =~= out.deep_view());
        }
        (out, respawns)
    }
}

/// The saved state is under the client's sole custody: after any burst of
/// inputs it equals the payload of the most recent `SetState`, or the
/// previously saved state if none arrived. The server never fabricates it.
pub proof fn lemma_state_custody(s: ServerSession, inputs: Seq<ServerInput>)
    ensures
        spec_run_state(s, inputs).last_state.deep_view() == latest_state(
            inputs,
            s.last_state.deep_view(),
        ),
    decreases inputs.len(),
{
    if inputs.len() == 0 {
    } else {
        lemma_state_custody(spec_step(s, inputs[0]).0, inputs.drop_first());
    }
}

/// As `lemma_state_custody`, across respawns: a respawn never touches the
/// saved state.
pub proof fn lemma_supervisor_state_custody(s: ServerSession, inputs: Seq<ServerInput>)
    ensures
        spec_run_supervisor(s, inputs).state.last_state.deep_view() == latest_state(
            inputs,
            s.last_state.deep_view(),
        ),
    decreases inputs.len(),
{
    if inputs.len() == 0 {
    } else {
        let (s1, a) = spec_step(s, inputs[0]);
        if spec_swap(s1) {
            let s2 = ServerSession {
                last_state: s1.last_state,
                restarting: false,
                file_exists: s1.file_exists,
            };
            lemma_supervisor_state_custody(s2, inputs.drop_first());
        } else {
            lemma_supervisor_state_custody(s1, inputs.drop_first());
        }
    }
}

/// A respawn after a burst of inputs hands the new client exactly the most
/// recent `SetState` payload (or the state saved before the burst, if none
/// arrived): a `Changed` event followed eventually by a successful respawn
/// starts the new client with the bytes of the old client's latest reply.
pub proof fn lemma_respawn_start_payload(s: ServerSession, inputs: Seq<ServerInput>)
    ensures
        ServerMessageView::Start(spec_run_state(s, inputs).last_state.deep_view())
            == ServerMessageView::Start(latest_state(inputs, s.last_state.deep_view())),
{
    lemma_state_custody(s, inputs);
}

/// Appending one input moves the most recent `SetState` payload forward:
/// the new input's payload if it is a `SetState`, the old answer otherwise.
proof fn lemma_latest_state_snoc(inputs: Seq<ServerInput>, x: ServerInput, init: Option<Seq<u8>>)
    ensures
        latest_state(inputs.push(x), init) == (match x {
            ServerInput::FromClient(ClientMessage::SetState(b)) => b.deep_view(),
            _ => latest_state(inputs, init),
        }),
    decreases inputs.len(),
{
    if inputs.len() == 0 {
        assert(inputs.push(x)[0] == x);
        assert(inputs.push(x).drop_first() =~= Seq::<ServerInput>::empty());
        let saved1 = match x {
            ServerInput::FromClient(ClientMessage::SetState(b)) => b.deep_view(),
            _ => init,
        };
        assert(latest_state(inputs.push(x), init) == latest_state(
            Seq::<ServerInput>::empty(),
            saved1,
        ));
        assert(latest_state(Seq::<ServerInput>::empty(), saved1) == saved1);
    } else {
        assert(inputs.push(x)[0] == inputs[0]);
        assert(inputs.push(x).drop_first() =~= inputs.drop_first().push(x));
        let init1 = match inputs[0] {
            ServerInput::FromClient(ClientMessage::SetState(b)) => b.deep_view(),
            _ => init,
        };
        lemma_latest_state_snoc(inputs.drop_first(), x, init1);
    }
}

/// Whenever a swap fires after the input at position `k`, the `Start` it
/// emits carries exactly the most recent `SetState` payload among the
/// inputs up to and including `k` — or the initially saved state, if no
/// reply came: a `Changed` followed eventually by a successful respawn
/// starts the new client with the old client's latest reply.
pub proof fn lemma_start_carries_latest_reply(
    s: ServerSession,
    inputs: Seq<ServerInput>,
    k: int,
)
    requires
        0 <= k < inputs.len(),
        spec_swap(spec_step(spec_run_supervisor(s, inputs.take(k)).state, inputs[k]).0),
    ensures
        spec_step(
            spec_run_supervisor(s, inputs.take(k)).state,
            inputs[k],
        ).0.last_state.deep_view() == latest_state(
            inputs.take(k + 1),
            s.last_state.deep_view(),
        ),
{
    let before = spec_run_supervisor(s, inputs.take(k)).state;
    lemma_supervisor_state_custody(s, inputs.take(k));
    assert(inputs.take(k + 1) =~= inputs.take(k).push(inputs[k]));
    lemma_latest_state_snoc(inputs.take(k), inputs[k], s.last_state.deep_view());
}

/// Sending `SetState(b)` and then immediately killing and respawning the
/// client hands the new client `Start` with exactly `b`: the reply becomes
/// the saved state at once, and a respawn sends exactly the saved state.
pub proof fn lemma_set_state_then_respawn(s: ServerSession, b: Option<Vec<u8>>)
    ensures
        ({
            let s1 = spec_step(s, ServerInput::FromClient(ClientMessage::SetState(b))).0;
            ServerMessageView::Start(s1.last_state.deep_view()) == ServerMessageView::Start(
                b.deep_view(),
            )
        }),
{
}

/// The steady-state loop itself never sends `Start`.
pub proof fn lemma_run_sends_no_start(s: ServerSession, inputs: Seq<ServerInput>)
    ensures
        forall|i: int| 0 <= i < spec_run_sent(s, inputs).len() ==> !(spec_run_sent(s, inputs)[i]
            is Start),
    decreases inputs.len(),
{
    if inputs.len() == 0 {
    } else {
        lemma_run_sends_no_start(spec_step(s, inputs[0]).0, inputs.drop_first());
    }
}

/// For every spawned client, exactly one `Start` is sent, and it precedes
/// every `GetState` and `Close` of the session.
pub proof fn lemma_exactly_one_start(s: ServerSession, inputs: Seq<ServerInput>)
    ensures
        session_messages(s, inputs)[0] is Start,
        forall|i: int| 1 <= i < session_messages(s, inputs).len() ==> !(session_messages(
            s,
            inputs,
        )[i] is Start),
{
    lemma_run_sends_no_start(s, inputs);
}

/// How many `GetState` messages a sequence holds.
pub open spec fn count_get_state(ms: Seq<ServerMessageView>) -> nat
    decreases ms.len(),
{
    if ms.len() == 0 {
        0
    } else {
        (if ms[0] is GetState {
            1nat
        } else {
            0nat
        }) + count_get_state(ms.drop_first())
    }
}

proof fn lemma_count_get_state_add(a: Seq<ServerMessageView>, b: Seq<ServerMessageView>)
    ensures
        count_get_state(a + b) == count_get_state(a) + count_get_state(b),
    decreases a.len(),
{
    if a.len() == 0 {
        assert(a + b =~= b);
    } else {
        assert((a + b).drop_first() =~= a.drop_first() + b);
        lemma_count_get_state_add(a.drop_first(), b);
    }
}

/// At most one `GetState` is in flight per session: one burst of inputs
/// makes the server send at most one `GetState`, and none at all when the
/// reload latch is already set — the latch is cleared only by a respawn,
/// which starts a new session.
pub proof fn lemma_at_most_one_get_state(s: ServerSession, inputs: Seq<ServerInput>)
    ensures
        count_get_state(spec_run_sent(s, inputs)) <= (if s.restarting {
            0int
        } else {
            1int
        }),
    decreases inputs.len(),
{
    if inputs.len() == 0 {
    } else {
        let (s1, a) = spec_step(s, inputs[0]);
        lemma_count_get_state_add(action_messages(a), spec_run_sent(s1, inputs.drop_first()));
        lemma_at_most_one_get_state(s1, inputs.drop_first());
        match a {
            ServerAction::Continue => {
                assert(count_get_state(action_messages(a)) == 0);
            }
            ServerAction::SendGetState => {
                assert(action_messages(a).drop_first() =~= Seq::<ServerMessageView>::empty());
                assert(count_get_state(action_messages(a).drop_first()) == 0);
                assert(count_get_state(action_messages(a)) == 1);
                assert(!s.restarting && s1.restarting);
            }
            ServerAction::SendClose => {
                assert(action_messages(a).drop_first() =~= Seq::<ServerMessageView>::empty());
                assert(count_get_state(action_messages(a).drop_first()) == 0);
                assert(count_get_state(action_messages(a)) == 0);
            }
        }
    }
}

/// The artifact stays missing at every intermediate state of a burst.
pub open spec fn file_missing_throughout(s: ServerSession, inputs: Seq<ServerInput>) -> bool
    decreases inputs.len(),
{
    !s.file_exists && (inputs.len() == 0 || file_missing_throughout(
        spec_step(s, inputs[0]).0,
        inputs.drop_first(),
    ))
}

/// While the artifact is missing and no `Created` arrives, it is missing at
/// every point of the burst and no respawn happens: both respawn gates —
/// the swap gate `restarting && file_exists` and the exit gate
/// `file_exists` — stay false, so the next respawn can come only on or
/// after the next `Created`.
pub proof fn lemma_no_respawn_while_missing(s: ServerSession, inputs: Seq<ServerInput>)
    requires
        !s.file_exists,
        forall|i: int| 0 <= i < inputs.len() ==> !(#[trigger] inputs[i]
            matches ServerInput::Watcher(WatcherEvent::Created)),
    ensures
        file_missing_throughout(s, inputs),
        !spec_run_supervisor(s, inputs).state.file_exists,
        spec_run_supervisor(s, inputs).respawns == 0,
    decreases inputs.len(),
{
    if inputs.len() == 0 {
    } else {
        let (s1, a) = spec_step(s, inputs[0]);
        assert(!s1.file_exists);
        assert(forall|i: int| 0 <= i < inputs.drop_first().len() ==> !(#[trigger] inputs.drop_first()[i]
            matches ServerInput::Watcher(WatcherEvent::Created)));
        lemma_no_respawn_while_missing(s1, inputs.drop_first());
    }
}

/// How many inputs can latch a reload: `Changed` watcher events and client
/// `Restart` requests.
pub open spec fn count_restart_triggers(inputs: Seq<ServerInput>) -> nat
    decreases inputs.len(),
{
    if inputs.len() == 0 {
        0
    } else {
        (if (inputs[0] matches ServerInput::Watcher(WatcherEvent::Changed)) || (inputs[0]
            matches ServerInput::FromClient(ClientMessage::Restart)) {
            1nat
        } else {
            0nat
        }) + count_restart_triggers(inputs.drop_first())
    }
}

/// A burst of N rapid `Changed` events (or `Restart` requests) collapses
/// to at most N respawns — plus one more if a reload was already latched
/// when the burst began.
pub proof fn lemma_respawns_bounded(s: ServerSession, inputs: Seq<ServerInput>)
    ensures
        spec_run_supervisor(s, inputs).respawns <= count_restart_triggers(inputs) + (
        if s.restarting {
            1int
        } else {
            0int
        }),
    decreases inputs.len(),
{
    if inputs.len() == 0 {
    } else {
        let (s1, a) = spec_step(s, inputs[0]);
        if spec_swap(s1) {
            let s2 = ServerSession {
                last_state: s1.last_state,
                restarting: false,
                file_exists: s1.file_exists,
            };
            lemma_respawns_bounded(s2, inputs.drop_first());
        } else {
            lemma_respawns_bounded(s1, inputs.drop_first());
        }
    }
}

/// Whether a payload is one the trace accounts for: the initially saved
/// state, or the payload of some `SetState` among the inputs.
pub open spec fn from_prior_session(
    p: Option<Seq<u8>>,
    inputs: Seq<ServerInput>,
    init: Option<Seq<u8>>,
) -> bool {
    p == init || exists|i: int|
        0 <= i < inputs.len() && (#[trigger] inputs[i] matches ServerInput::FromClient(
            ClientMessage::SetState(b),
        ) && p == b.deep_view())
}

/// Every `Start` a supervisor run sends carries either the initially saved
/// state or the payload of some `SetState` the clients sent: each respawn
/// carries state taken from a prior session, never a fabricated one.
pub proof fn lemma_respawns_carry_prior_state(s: ServerSession, inputs: Seq<ServerInput>)
    ensures
        forall|j: int|
            0 <= j < spec_run_supervisor(s, inputs).sent.len() ==> (#[trigger] spec_run_supervisor(
                s,
                inputs,
            ).sent[j] matches ServerMessageView::Start(p) ==> from_prior_session(
                p,
                inputs,
                s.last_state.deep_view(),
            )),
    decreases inputs.len(),
{
    if inputs.len() == 0 {
    } else {
        let (s1, a) = spec_step(s, inputs[0]);
        let rest_inputs = inputs.drop_first();
        let init = s.last_state.deep_view();
        // The state after one step is accounted for by the full trace.
        assert(from_prior_session(s1.last_state.deep_view(), inputs, init)) by {
            match inputs[0] {
                ServerInput::FromClient(ClientMessage::SetState(b)) => {
                    assert(inputs[0] matches ServerInput::FromClient(ClientMessage::SetState(b2))
                        && s1.last_state.deep_view() == b2.deep_view());
                }
                _ => {
                }
            }
        }
        let s2 = if spec_swap(s1) {
            ServerSession { last_state: s1.last_state, restarting: false, file_exists: s1.file_exists }
        } else {
            s1
        };
        lemma_respawns_carry_prior_state(s2, rest_inputs);
        // Payloads accounted for by the tail trace are accounted for by the
        // whole trace: the tail's initial state is accounted for, and each
        // tail index shifts by one.
        assert forall|p: Option<Seq<u8>>|
            from_prior_session(p, rest_inputs, s2.last_state.deep_view()) implies from_prior_session(
            p,
            inputs,
            init,
        ) by {
            if p == s2.last_state.deep_view() {
            } else {
                let i = choose|i: int|
                    0 <= i < rest_inputs.len() && (#[trigger] rest_inputs[i]
                        matches ServerInput::FromClient(ClientMessage::SetState(b)) && p
                        == b.deep_view());
                assert(inputs[i + 1] == rest_inputs[i]);
                assert(0 <= i + 1 < inputs.len() && (inputs[i + 1]
                    matches ServerInput::FromClient(ClientMessage::SetState(b)) && p
                    == b.deep_view()));
            }
        }
    }
}

} // verus!
