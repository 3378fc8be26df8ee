//! The client connection and its transport.
//!
//! A client owns one transport and exposes the send/wait capability the
//! room loop drives.  The transport here is the wire-protocol brain only:
//! connecting means computing the URL the socket must dial, sending means
//! producing the frame to write, and waiting means judging each inbound
//! frame event — deliver a recognized chat event, keep waiting, or fail.
//! The runner owns the socket and feeds frame events in.

use vstd::prelude::*;

use crate::codec::{
    decode_frame, encode_send, parsed_frame, spec_classify, username_key, FrameVerdict,
    FrameVerdictView,
};
use crate::messages::{ClientMessage, Message, MessageView};

verus! {

/// Why establishing a connection failed before any handshake: the base
/// address could not be rewritten to the transport's wire scheme.
#[derive(Debug)]
pub enum ConnectError {
    InvalidAddress,
    /// The socket handshake failed; raised by the runner, never by the
    /// address rewrite itself.
    Handshake,
}

/// Why writing a frame failed.  Raised by the runner when the write or
/// the connection under it fails; the codec itself cannot fail to encode.
#[derive(Debug)]
pub enum SendError {
    Connection,
}

/// Why a wait for a message failed.
#[derive(Debug)]
pub enum ReceiveError {
    /// The connection closed before any recognized message arrived.
    Closed,
    /// A textual frame was not a well-formed envelope.
    Malformed,
}

/// The wire formats a client can speak.  A closed set: adding one means
/// adding a variant here and its arms below, and nothing changes for the
/// room loop or the orchestrator.
#[derive(Clone, Copy, Debug, PartialEq, Eq, Structural)]
pub enum TransportType {
    Ws,
}

impl TransportType {
    /// Parses a transport name; `"ws"` is the one recognized kind.
    pub fn from_str(s: &str) -> (r: Option<TransportType>)
        ensures
            r == if s@ == "ws"@ {
                Some(TransportType::Ws)
            } else {
                None::<TransportType>
            },
    {
        let name: String = s.to_owned();
        let ws: String = "ws".to_owned();
        if name == ws {
            Some(TransportType::Ws)
        } else {
            None
        }
    }
}

/// The wire scheme the base address is rewritten to: `"ws"`.
pub open spec fn scheme_of(t: TransportType) -> Seq<u8> {
    match t {
        TransportType::Ws => seq![119u8, 115],
    }
}

/// First position in `u`, at or after `i`, where `"://"` begins.
pub open spec fn find_sep(u: Seq<u8>, i: int) -> Option<int>
    decreases u.len() - i,
{
    if i < 0 || i + 3 > u.len() {
        None
    } else if u[i] == 58 && u[i + 1] == 47 && u[i + 2] == 47 {
        Some(i)
    } else {
        find_sep(u, i + 1)
    }
}

/// Whether the address already carries a query string.
pub open spec fn has_query(u: Seq<u8>) -> bool {
    exists|i: int| 0 <= i < u.len() && u[i] == 63
}

/// A byte of a query-parameter value that stands unencoded.
pub open spec fn is_plain_query_byte(b: u8) -> bool {
    (48 <= b <= 57) || (65 <= b <= 90) || (97 <= b <= 122) || b == 45 || b == 46 || b == 95 || b
        == 42
}

/// The hexadecimal digit for `n`, upper case.
pub open spec fn hex_upper(n: u8) -> u8
    recommends
        n < 16,
{
    if n < 10 {
        (48 + n) as u8
    } else {
        (55 + n) as u8
    }
}

/// One byte of a query-parameter value, form-urlencoded: unreserved bytes
/// stand as is, a space becomes `+`, everything else `%XX`.
pub open spec fn pct_byte(b: u8) -> Seq<u8> {
    if is_plain_query_byte(b) {
        seq![b]
    } else if b == 32 {
        seq![43u8]
    } else {
        seq![37u8, hex_upper(b / 16), hex_upper(b % 16)]
    }
}

/// A query-parameter value, form-urlencoded.
pub open spec fn pct_bytes(s: Seq<u8>) -> Seq<u8>
    decreases s.len(),
{
    if s.len() == 0 {
        Seq::empty()
    } else {
        pct_byte(s[0]) + pct_bytes(s.drop_first())
    }
}

proof fn lemma_pct_snoc(s: Seq<u8>, i: int)
    requires
        0 <= i < s.len(),
    ensures
        pct_bytes(s.take(i + 1)) == pct_bytes(s.take(i)) + pct_byte(s[i]),
    decreases i,
{
    if i == 0 {
        assert(s.take(1) =~= seq![s[0]]);
        assert(s.take(1).drop_first() =~= Seq::<u8>::empty());
        assert(s.take(0) =~= Seq::<u8>::empty());
        assert(pct_bytes(s.take(i + 1)) =~= pct_bytes(s.take(i)) + pct_byte(s[i]));
    } else {
        let t = s.drop_first();
        lemma_pct_snoc(t, i - 1);
        assert(s.take(i + 1).drop_first() =~= t.take(i));
        assert(s.take(i).drop_first() =~= t.take(i - 1));
        assert(pct_byte(s[0]) + (pct_bytes(t.take(i - 1)) + pct_byte(t[i - 1])) =~= (pct_byte(s[0])
            + pct_bytes(t.take(i - 1))) + pct_byte(t[i - 1]));
    }
}

/// "room"
pub open spec fn room_key() -> Seq<u8> {
    seq![114u8, 111, 111, 109]
}

/// The `room` and `username` parameters appended to the address, behind
/// `?` or `&` according to whether the address already had a query.
pub open spec fn query_suffix(base_had_query: bool, room: Seq<u8>, username: Seq<u8>) -> Seq<u8> {
    seq![if base_had_query { 38u8 } else { 63u8 }] + room_key() + seq![61u8] + pct_bytes(room)
        + seq![38u8] + username_key() + seq![61u8] + pct_bytes(username)
}

/// The URL the socket must dial: the base address with its scheme
/// rewritten to the transport's wire scheme and the connection parameters
/// appended; `None` when the address has no scheme to rewrite.
pub open spec fn wire_url(
    kind: TransportType,
    base: Seq<u8>,
    username: Seq<u8>,
    room: Seq<u8>,
) -> Option<Seq<u8>> {
    match find_sep(base, 0) {
        None => None,
        Some(i) => Some(scheme_of(kind) + base.skip(i) + query_suffix(has_query(base), room, username)),
    }
}

fn find_sep_at(u: &[u8], i: usize) -> (r: Option<usize>)
    requires
        i <= u@.len(),
    ensures
        (match r {
            Some(j) => Some(j as int),
            None => None,
        }) == find_sep(u@, i as int),
        r matches Some(j) ==> i <= j && j + 3 <= u@.len(),
    decreases u@.len() - i,
{
    if u.len() < 3 || i > u.len() - 3 {
        None
    } else if u[i] == 58 && u[i + 1] == 47 && u[i + 2] == 47 {
        Some(i)
    } else {
        find_sep_at(u, i + 1)
    }
}

fn has_query_byte(u: &[u8]) -> (r: bool)
    ensures
        r == has_query(u@),
{
    let mut i: usize = 0;
    while i < u.len()
        invariant
            i <= u@.len(),
            forall|j: int| 0 <= j < i ==> u@[j] != 63,
        decreases u@.len() - i,
    {
        if u[i] == 63 {
            return true;
        }
        i = i + 1;
    }
    false
}

fn push_tail(out: &mut Vec<u8>, u: &[u8], from: usize)
    requires
        from <= u@.len(),
    ensures
        final(out)@ == old(out)@ + u@.skip(from as int),
{
    let mut i: usize = from;
    while i < u.len()
        invariant
            from <= i <= u@.len(),
            out@ == old(out)@ + u@.subrange(from as int, i as int),
        decreases u@.len() - i,
    {
        out.push(u[i]);
        proof {
            assert(u@.subrange(from as int, i + 1) =~= u@.subrange(from as int, i as int)
                + seq![u@[i as int]]);
            assert(out@ =~= old(out)@ + u@.subrange(from as int, i + 1));
        }
        i = i + 1;
    }
    proof {
        assert(u@.subrange(from as int, u@.len() as int) =~= u@.skip(from as int));
    }
}

fn push_encoded(out: &mut Vec<u8>, s: &[u8])
    ensures
        final(out)@ == old(out)@ + pct_bytes(s@),
{
    let mut i: usize = 0;
    while i < s.len()
        invariant
            i <= s@.len(),
            out@ == old(out)@ + pct_bytes(s@.take(i as int)),
        decreases s@.len() - i,
    {
        let ghost pre = out@;
        let b = s[i];
        if (48 <= b && b <= 57) || (65 <= b && b <= 90) || (97 <= b && b <= 122) || b == 45 || b
            == 46 || b == 95 || b == 42 {
            out.push(b);
        } else if b == 32 {
            out.push(43);
        } else {
            out.push(37);
            let hi = b / 16;
            let lo = b % 16;
            out.push(if hi < 10 { 48 + hi } else { 55 + hi });
            out.push(if lo < 10 { 48 + lo } else { 55 + lo });
        }
        proof {
            assert(out@ =~= pre + pct_byte(b));
            lemma_pct_snoc(s@, i as int);
            assert(out@ =~= old(out)@ + pct_bytes(s@.take(i + 1)));
        }
        i = i + 1;
    }
    proof {
        assert(s@.take(s@.len() as int) =~= s@);
    }
}

/// A frame-level event observed on the connection while waiting.
pub enum FrameEvent {
    /// A textual frame with these bytes arrived.
    Text(Vec<u8>),
    /// A non-textual frame arrived; skipped.
    NotText,
    /// The connection closed.
    Closed,
}

/// The judgment on one frame event during a wait for a message.
pub enum WaitStep {
    /// A recognized chat event arrived; the wait is over.
    Delivered(Message),
    /// Nothing decisive: keep waiting for the next frame.
    Pending,
    /// The wait failed.
    Failed(ReceiveError),
}

/// One client connection: the owner of one transport.
pub struct Client {
    pub transport: TransportType,
}

impl Client {
    /// Wraps one transport instance.
    pub fn new(transport: TransportType) -> (c: Client)
        ensures
            c.transport == transport,
    {
        Client { transport }
    }

    /// Prepares a connection: computes the URL the socket must dial for
    /// this transport, base address, room and username.  Fails exactly
    /// when the base address has no scheme to rewrite.
    pub fn connect(
        client_type: &TransportType,
        base_url: &[u8],
        username: &[u8],
        room: &[u8],
    ) -> (r: Result<(Client, Vec<u8>), ConnectError>)
        ensures
            match r {
                Ok((c, url)) => c.transport == *client_type && Some(url@) == wire_url(
                    *client_type,
                    base_url@,
                    username@,
                    room@,
                ),
                Err(e) => e == ConnectError::InvalidAddress && wire_url(
                    *client_type,
                    base_url@,
                    username@,
                    room@,
                ) is None,
            },
    {
        match find_sep_at(base_url, 0) {
            None => Err(ConnectError::InvalidAddress),
            Some(i) => {
                let mut out: Vec<u8> = match client_type {
                    TransportType::Ws => vec![119u8, 115],
                };
                proof {
                    assert(out@ =~= scheme_of(*client_type));
                }
                push_tail(&mut out, base_url, i);
                let q = has_query_byte(base_url);
                out.push(if q { 38 } else { 63 });
                out.push(114);
                out.push(111);
                out.push(111);
                out.push(109);
                out.push(61);
                push_encoded(&mut out, room);
                out.push(38);
                out.push(117);
                out.push(115);
                out.push(101);
                out.push(114);
                out.push(110);
                out.push(97);
                out.push(109);
                out.push(101);
                out.push(61);
                push_encoded(&mut out, username);
                proof {
                    assert(out@ =~= scheme_of(*client_type) + base_url@.skip(i as int)
                        + query_suffix(has_query(base_url@), room@, username@));
                }
                Ok((Client { transport: *client_type }, out))
            },
        }
    }

    /// The frame this client writes to broadcast `message`.
    pub fn send_message(&self, message: &[u8]) -> (frame: Vec<u8>)
        ensures
            frame@ == encode_send(message@),
    {
        match self.transport {
            TransportType::Ws => {
                let mut text: Vec<u8> = Vec::new();
                push_tail(&mut text, message, 0);
                proof {
                    assert(message@.skip(0) =~= message@);
                }
                crate::codec::encode_client_message(&ClientMessage::SendMessage(text))
            },
        }
    }

    /// Judges one frame event while waiting for a message: a recognized
    /// chat event is delivered; a non-textual frame or a well-formed
    /// envelope with an unrecognized tag is skipped; a closed connection
    /// or a malformed textual frame fails the wait.
    pub fn wait_for_message(&self, event: FrameEvent) -> (r: WaitStep)
        ensures
            match event {
                FrameEvent::Closed => r == WaitStep::Failed(ReceiveError::Closed),
                FrameEvent::NotText => r == WaitStep::Pending,
                FrameEvent::Text(frame) => match spec_classify(parsed_frame(frame@)) {
                    FrameVerdictView::Recognized(mv) => r matches WaitStep::Delivered(m) && m@
                        == mv,
                    FrameVerdictView::Unrecognized => r == WaitStep::Pending,
                    FrameVerdictView::Malformed => r == WaitStep::Failed(ReceiveError::Malformed),
                },
            },
    {
        match event {
            FrameEvent::Closed => WaitStep::Failed(ReceiveError::Closed),
            FrameEvent::NotText => WaitStep::Pending,
            FrameEvent::Text(frame) => match decode_frame(frame.as_slice()) {
                FrameVerdict::Recognized(m) => WaitStep::Delivered(m),
                FrameVerdict::Unrecognized => WaitStep::Pending,
                FrameVerdict::Malformed => WaitStep::Failed(ReceiveError::Malformed),
            },
        }
    }
}

} // verus!
