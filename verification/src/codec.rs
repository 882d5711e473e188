//! The wire encoding of the control protocol: every message crosses the
//! stream socket as an 8-byte little-endian length prefix followed by an
//! opaque payload in a fixed binary encoding. The encoding is proved to
//! round-trip, so the runtime never corrupts the state bytes it carries.

use vstd::prelude::*;
use vstd::bytes::{
    spec_u64_from_le_bytes, spec_u64_to_le_bytes, lemma_auto_spec_u64_to_from_le_bytes,
    u64_from_le_bytes, u64_to_le_bytes,
};
use vstd::slice::slice_subrange;
use vstd::assert_seqs_equal;
use crate::message::{ClientMessage, ServerMessage};

verus! {

/// First payload byte of `ServerMessage::Start`.
pub const TAG_START: u8 = 0;

/// Sole payload byte of `ServerMessage::GetState`.
pub const TAG_GET_STATE: u8 = 1;

/// Sole payload byte of `ServerMessage::Close`.
pub const TAG_CLOSE: u8 = 2;

/// Sole payload byte of `ClientMessage::Restart`.
pub const TAG_RESTART: u8 = 0;

/// First payload byte of `ClientMessage::SetState`.
pub const TAG_SET_STATE: u8 = 1;

/// Marker byte for an absent optional byte string.
pub const TAG_NONE: u8 = 0;

/// Marker byte for a present optional byte string.
pub const TAG_SOME: u8 = 1;

/// The mathematical image of a `ServerMessage`.
pub enum ServerMessageView {
    Start(Option<Seq<u8>>),
    GetState,
    Close,
}

/// The mathematical image of a `ClientMessage`.
pub enum ClientMessageView {
    Restart,
    SetState(Option<Seq<u8>>),
}

impl View for ServerMessage {
    type V = ServerMessageView;

    open spec fn view(&self) -> ServerMessageView {
        match self {
            ServerMessage::Start(s) => ServerMessageView::Start(s.deep_view()),
            ServerMessage::GetState => ServerMessageView::GetState,
            ServerMessage::Close => ServerMessageView::Close,
        }
    }
}

impl View for ClientMessage {
    type V = ClientMessageView;

    open spec fn view(&self) -> ClientMessageView {
        match self {
            ClientMessage::Restart => ClientMessageView::Restart,
            ClientMessage::SetState(s) => ClientMessageView::SetState(s.deep_view()),
        }
    }
}

impl DeepView for ServerMessage {
    type V = ServerMessageView;

    open spec fn deep_view(&self) -> ServerMessageView {
        self.view()
    }
}

impl DeepView for ClientMessage {
    type V = ClientMessageView;

    open spec fn deep_view(&self) -> ClientMessageView {
        self.view()
    }
}

/// An optional byte string whose length fits the 8-byte length field.
/// Every value a machine can hold satisfies this.
pub open spec fn opt_bytes_fit(s: Option<Seq<u8>>) -> bool {
    match s {
        None => true,
        Some(b) => b.len() <= u64::MAX,
    }
}

impl ServerMessageView {
    /// Whether the carried state bytes fit the length field.
    pub open spec fn wf(self) -> bool {
        match self {
            ServerMessageView::Start(s) => opt_bytes_fit(s),
            _ => true,
        }
    }
}

impl ClientMessageView {
    /// Whether the carried state bytes fit the length field.
    pub open spec fn wf(self) -> bool {
        match self {
            ClientMessageView::SetState(s) => opt_bytes_fit(s),
            _ => true,
        }
    }
}

/// Encoding of an optional byte string: a marker byte, and for a present
/// string its 8-byte little-endian length followed by the bytes themselves.
pub open spec fn spec_encode_opt_bytes(s: Option<Seq<u8>>) -> Seq<u8> {
    match s {
        None => seq![TAG_NONE],
        Some(b) => seq![TAG_SOME] + spec_u64_to_le_bytes(b.len() as u64) + b,
    }
}

/// Decoding of an optional byte string; `None` when the bytes are not an
/// exact encoding.
pub open spec fn spec_decode_opt_bytes(b: Seq<u8>) -> Option<Option<Seq<u8>>> {
    if b.len() == 1 && b[0] == TAG_NONE {
        Some(None)
    } else if b.len() >= 9 && b[0] == TAG_SOME && b.len() - 9
        == spec_u64_from_le_bytes(b.subrange(1, 9)) {
        Some(Some(b.subrange(9, b.len() as int)))
    } else {
        None
    }
}

/// Payload encoding of a server-to-client message.
pub open spec fn spec_encode_server_message(m: ServerMessageView) -> Seq<u8> {
    match m {
        ServerMessageView::Start(s) => seq![TAG_START] + spec_encode_opt_bytes(s),
        ServerMessageView::GetState => seq![TAG_GET_STATE],
        ServerMessageView::Close => seq![TAG_CLOSE],
    }
}

/// Payload decoding of a server-to-client message.
pub open spec fn spec_decode_server_message(b: Seq<u8>) -> Option<ServerMessageView> {
    if b.len() >= 1 && b[0] == TAG_START {
        match spec_decode_opt_bytes(b.subrange(1, b.len() as int)) {
            Some(s) => Some(ServerMessageView::Start(s)),
            None => None,
        }
    } else if b.len() == 1 && b[0] == TAG_GET_STATE {
        Some(ServerMessageView::GetState)
    } else if b.len() == 1 && b[0] == TAG_CLOSE {
        Some(ServerMessageView::Close)
    } else {
        None
    }
}

/// Payload encoding of a client-to-server message.
pub open spec fn spec_encode_client_message(m: ClientMessageView) -> Seq<u8> {
    match m {
        ClientMessageView::Restart => seq![TAG_RESTART],
        ClientMessageView::SetState(s) => seq![TAG_SET_STATE] + spec_encode_opt_bytes(s),
    }
}

/// Payload decoding of a client-to-server message.
pub open spec fn spec_decode_client_message(b: Seq<u8>) -> Option<ClientMessageView> {
    if b.len() == 1 && b[0] == TAG_RESTART {
        Some(ClientMessageView::Restart)
    } else if b.len() >= 1 && b[0] == TAG_SET_STATE {
        match spec_decode_opt_bytes(b.subrange(1, b.len() as int)) {
            Some(s) => Some(ClientMessageView::SetState(s)),
            None => None,
        }
    } else {
        None
    }
}

/// A frame as it crosses the socket: the payload length as 8 little-endian
/// bytes, then the payload.
pub open spec fn spec_encode_frame(payload: Seq<u8>) -> Seq<u8> {
    spec_u64_to_le_bytes(payload.len() as u64) + payload
}

/// Decoding an optional byte string from its own encoding gives it back:
/// the runtime does not corrupt the state bytes it carries.
pub proof fn lemma_opt_bytes_round_trip(s: Option<Seq<u8>>)
    requires
        opt_bytes_fit(s),
    ensures
        spec_decode_opt_bytes(spec_encode_opt_bytes(s)) == Some(s),
{
    lemma_auto_spec_u64_to_from_le_bytes();
    match s {
        None => {
        }
        Some(b) => {
            let e = spec_encode_opt_bytes(s);
            let lenb = spec_u64_to_le_bytes(b.len() as u64);
            assert(e.len() == 9 + b.len());
            assert_seqs_equal!(e.subrange(1, 9) == lenb);
            assert(spec_u64_from_le_bytes(e.subrange(1, 9)) == b.len());
            assert_seqs_equal!(e.subrange(9, e.len() as int) == b);
        }
    }
}

/// Decoding a server message from its own encoding gives the message back.
pub proof fn lemma_server_message_round_trip(m: ServerMessageView)
    requires
        m.wf(),
    ensures
        spec_decode_server_message(spec_encode_server_message(m)) == Some(m),
{
    match m {
        ServerMessageView::Start(s) => {
            let e = spec_encode_server_message(m);
            let eo = spec_encode_opt_bytes(s);
            assert_seqs_equal!(e.subrange(1, e.len() as int) == eo);
            lemma_opt_bytes_round_trip(s);
        }
        ServerMessageView::GetState => {
        }
        ServerMessageView::Close => {
        }
    }
}

/// Decoding a client message from its own encoding gives the message back.
pub proof fn lemma_client_message_round_trip(m: ClientMessageView)
    requires
        m.wf(),
    ensures
        spec_decode_client_message(spec_encode_client_message(m)) == Some(m),
{
    match m {
        ClientMessageView::SetState(s) => {
            let e = spec_encode_client_message(m);
            let eo = spec_encode_opt_bytes(s);
            assert_seqs_equal!(e.subrange(1, e.len() as int) == eo);
            lemma_opt_bytes_round_trip(s);
        }
        ClientMessageView::Restart => {
        }
    }
}

/// Bytes the decoder rejects are not the encoding of any message: decoding
/// answers exactly the encodings.
pub proof fn lemma_server_decode_complete(b: Seq<u8>)
    ensures
        spec_decode_server_message(b) is None ==> forall|m: ServerMessageView|
            m.wf() ==> spec_encode_server_message(m) != b,
{
    if spec_decode_server_message(b) is None {
        assert forall|m: ServerMessageView| m.wf() implies spec_encode_server_message(m) != b by {
            if spec_encode_server_message(m) == b {
                lemma_server_message_round_trip(m);
            }
        }
    }
}

/// Bytes the decoder rejects are not the encoding of any message.
pub proof fn lemma_client_decode_complete(b: Seq<u8>)
    ensures
        spec_decode_client_message(b) is None ==> forall|m: ClientMessageView|
            m.wf() ==> spec_encode_client_message(m) != b,
{
    if spec_decode_client_message(b) is None {
        assert forall|m: ClientMessageView| m.wf() implies spec_encode_client_message(m) != b by {
            if spec_encode_client_message(m) == b {
                lemma_client_message_round_trip(m);
            }
        }
    }
}

/// A frame carries its payload intact: the length field decodes to the
/// payload length, and the rest of the frame is the payload.
pub proof fn lemma_frame_round_trip(payload: Seq<u8>)
    requires
        payload.len() <= u64::MAX,
    ensures
        spec_encode_frame(payload).len() == 8 + payload.len(),
        spec_u64_from_le_bytes(spec_encode_frame(payload).subrange(0, 8)) == payload.len(),
        spec_encode_frame(payload).subrange(8, spec_encode_frame(payload).len() as int)
            == payload,
{
    lemma_auto_spec_u64_to_from_le_bytes();
    let f = spec_encode_frame(payload);
    let lenb = spec_u64_to_le_bytes(payload.len() as u64);
    assert_seqs_equal!(f.subrange(0, 8) == lenb);
    assert_seqs_equal!(f.subrange(8, f.len() as int) == payload);
}

/// Appends a copy of `src` to `dst`.
fn push_all(dst: &mut Vec<u8>, src: &Vec<u8>)
    ensures
        final(dst)@ == old(dst)@ + src@,
{
    let mut i: usize = 0;
    while i < src.len()
        invariant
            i <= src@.len(),
            dst@ == old(dst)@ + src@.subrange(0, i as int),
        decreases src@.len() - i,
    {
        dst.push(src[i]);
        i = i + 1;
        assert(dst@ == old(dst)@ + src@.subrange(0, i as int)) by {
            assert_seqs_equal!(old(dst)@ + src@.subrange(0, i as int) ==
                (old(dst)@ + src@.subrange(0, i - 1)).push(src@[i - 1]));
        }
    }
    proof {
        assert_seqs_equal!(src@.subrange(0, src@.len() as int) == src@);
    }
}

/// The deep view of a byte vector is its ordinary view.
pub proof fn lemma_bytes_deep_view(v: &Vec<u8>)
    ensures
        v.deep_view() == v@,
{
    assert(v.deep_view() =~= v@);
}

/// Copies a byte string.
pub fn clone_bytes(b: &Vec<u8>) -> (r: Vec<u8>)
    ensures
        r@ == b@,
{
    let mut v: Vec<u8> = Vec::new();
    push_all(&mut v, b);
    v
}

/// Copies an optional byte string.
pub fn clone_opt_bytes(s: &Option<Vec<u8>>) -> (r: Option<Vec<u8>>)
    ensures
        r.deep_view() == s.deep_view(),
        r is Some <==> s is Some,
{
    match s {
        None => None,
        Some(b) => Some(clone_bytes(b)),
    }
}

/// Encodes an optional byte string.
pub fn encode_opt_bytes(s: &Option<Vec<u8>>) -> (r: Vec<u8>)
    ensures
        r@ == spec_encode_opt_bytes(s.deep_view()),
{
    match s {
        None => {
            let mut v: Vec<u8> = Vec::new();
            v.push(TAG_NONE);
            proof {
                assert_seqs_equal!(v@ == seq![TAG_NONE]);
            }
            v
        }
        Some(b) => {
            let mut v: Vec<u8> = Vec::new();
            v.push(TAG_SOME);
            let mut lenb = u64_to_le_bytes(b.len() as u64);
            v.append(&mut lenb);
            push_all(&mut v, b);
            proof {
                assert_seqs_equal!(v@ == spec_encode_opt_bytes(s.deep_view()));
            }
            v
        }
    }
}

/// Decodes an optional byte string from `b` starting at `start`; answers
/// exactly where the suffix is a well-formed encoding.
fn decode_opt_bytes_at(b: &Vec<u8>, start: usize) -> (r: Option<Option<Vec<u8>>>)
    requires
        start <= b@.len(),
    ensures
        r.deep_view() == spec_decode_opt_bytes(b@.subrange(start as int, b@.len() as int)),
{
    let ghost tail = b@.subrange(start as int, b@.len() as int);
    let n = b.len() - start;
    if n == 1 && b[start] == TAG_NONE {
        assert(tail.len() == 1 && tail[0] == TAG_NONE);
        Some(None)
    } else if n >= 9 && b[start] == TAG_SOME {
        let lenb = slice_subrange(b.as_slice(), start + 1, start + 9);
        let m = u64_from_le_bytes(lenb);
        assert(lenb@ == tail.subrange(1, 9)) by {
            assert_seqs_equal!(b@.subrange(start + 1, start + 9) == tail.subrange(1, 9));
        }
        if (n - 9) as u64 == m {
            let mut payload: Vec<u8> = Vec::new();
            let mut i: usize = start + 9;
            while i < b.len()
                invariant
                    start + 9 <= i <= b@.len(),
                    payload@ == b@.subrange(start + 9, i as int),
                decreases b@.len() - i,
            {
                payload.push(b[i]);
                i = i + 1;
                proof {
                    assert_seqs_equal!(b@.subrange(start + 9, i as int) ==
                    b@.subrange(start + 9, i - 1).push(b@[i - 1]));
                }
            }
            assert(payload@ == tail.subrange(9, tail.len() as int)) by {
                assert_seqs_equal!(b@.subrange(start + 9, b@.len() as int) ==
                    tail.subrange(9, tail.len() as int));
            }
            Some(Some(payload))
        } else {
            None
        }
    } else {
        assert(spec_decode_opt_bytes(tail) is None);
        None
    }
}

/// Encodes a server-to-client message as a payload.
pub fn encode_server_message(m: &ServerMessage) -> (r: Vec<u8>)
    ensures
        r@ == spec_encode_server_message(m@),
{
    match m {
        ServerMessage::Start(s) => {
            let mut v: Vec<u8> = Vec::new();
            v.push(TAG_START);
            let mut body = encode_opt_bytes(s);
            v.append(&mut body);
            proof {
                assert_seqs_equal!(v@ == spec_encode_server_message(m@));
            }
            v
        }
        ServerMessage::GetState => {
            let mut v: Vec<u8> = Vec::new();
            v.push(TAG_GET_STATE);
            proof {
                assert_seqs_equal!(v@ == spec_encode_server_message(m@));
            }
            v
        }
        ServerMessage::Close => {
            let mut v: Vec<u8> = Vec::new();
            v.push(TAG_CLOSE);
            proof {
                assert_seqs_equal!(v@ == spec_encode_server_message(m@));
            }
            v
        }
    }
}

/// Decodes a server-to-client message; answers exactly where the payload
/// is a well-formed encoding.
pub fn decode_server_message(b: &Vec<u8>) -> (r: Option<ServerMessage>)
    ensures
        match r {
            Some(m) => spec_decode_server_message(b@) == Some(m@),
            None => spec_decode_server_message(b@) is None,
        },
{
    if b.len() == 0 {
        return None;
    }
    let tag = b[0];
    if tag == TAG_START {
        match decode_opt_bytes_at(b, 1) {
            Some(s) => Some(ServerMessage::Start(s)),
            None => None,
        }
    } else if b.len() == 1 && tag == TAG_GET_STATE {
        Some(ServerMessage::GetState)
    } else if b.len() == 1 && tag == TAG_CLOSE {
        Some(ServerMessage::Close)
    } else {
        None
    }
}

/// Encodes a client-to-server message as a payload.
pub fn encode_client_message(m: &ClientMessage) -> (r: Vec<u8>)
    ensures
        r@ == spec_encode_client_message(m@),
{
    match m {
        ClientMessage::Restart => {
            let mut v: Vec<u8> = Vec::new();
            v.push(TAG_RESTART);
            proof {
                assert_seqs_equal!(v@ == spec_encode_client_message(m@));
            }
            v
        }
        ClientMessage::SetState(s) => {
            let mut v: Vec<u8> = Vec::new();
            v.push(TAG_SET_STATE);
            let mut body = encode_opt_bytes(s);
            v.append(&mut body);
            proof {
                assert_seqs_equal!(v@ == spec_encode_client_message(m@));
            }
            v
        }
    }
}

/// Decodes a client-to-server message; answers exactly where the payload
/// is a well-formed encoding.
pub fn decode_client_message(b: &Vec<u8>) -> (r: Option<ClientMessage>)
    ensures
        match r {
            Some(m) => spec_decode_client_message(b@) == Some(m@),
            None => spec_decode_client_message(b@) is None,
        },
{
    if b.len() == 0 {
        return None;
    }
    let tag = b[0];
    if tag == TAG_SET_STATE {
        match decode_opt_bytes_at(b, 1) {
            Some(s) => Some(ClientMessage::SetState(s)),
            None => None,
        }
    } else if b.len() == 1 && tag == TAG_RESTART {
        Some(ClientMessage::Restart)
    } else {
        None
    }
}

/// Prefixes a payload with its 8-byte little-endian length.
pub fn encode_frame(payload: &Vec<u8>) -> (r: Vec<u8>)
    ensures
        r@ == spec_encode_frame(payload@),
{
    let mut v = u64_to_le_bytes(payload.len() as u64);
    push_all(&mut v, payload);
    v
}

/// Reads the payload length out of an 8-byte frame header.
pub fn frame_payload_len(header: &Vec<u8>) -> (r: u64)
    requires
        header@.len() == 8,
    ensures
        r == spec_u64_from_le_bytes(header@),
{
    u64_from_le_bytes(header.as_slice())
}

} // verus!
