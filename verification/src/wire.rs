//! The binary websocket frames exchanged with miners and the handling of one
//! incoming websocket message.

use vstd::prelude::*;
use vstd::bytes::{spec_u64_from_le_bytes, spec_u64_to_le_bytes, u64_from_le_bytes, u64_to_le_bytes};
use vstd::utf8::{decode_utf8, valid_utf8};
use std::ops::ControlFlow;
use crate::chain::{base58_signature, ed25519_verifies, parse_signature, utf8_to_string, verify_signature};
use crate::nonce::NonceRange;
use crate::solution::Solution;

verus! {

/// How long (in seconds) a miner's signed "ready" timestamp stays acceptable.
pub const READY_MAX_AGE_SECS: u64 = 5;

/// Frame kind of a "ready" frame (miner to pool) and of a "start mining" frame
/// (pool to miner).
pub const FRAME_READY: u8 = 0;
/// Frame kind of a "mining" frame.
pub const FRAME_MINING: u8 = 1;
/// Frame kind of a "best solution" frame.
pub const FRAME_SOLUTION: u8 = 2;

/// Length of a "start mining" frame: kind, challenge, cutoff, nonce range.
pub const START_FRAME_LEN: usize = 57;

/// A close frame of the websocket protocol.
#[derive(Debug)]
pub struct CloseFrame {
    pub code: u16,
    pub reason: String,
}

/// A websocket message as received from a miner.
#[derive(Debug)]
pub enum WsMessage {
    Text(String),
    Binary(Vec<u8>),
    Ping(Vec<u8>),
    Pong(Vec<u8>),
    Close(Option<CloseFrame>),
}

/// What a miner's connection hands on to the pool's message handler, tagged with
/// the connection's address `A`.
#[derive(Debug)]
pub enum ClientMessage<A> {
    Ready(A),
    Mining(A),
    BestSolution(A, Solution, [u8; 32]),
}

/// A decoded binary frame sent by a miner.
#[derive(Debug)]
pub enum ClientFrame {
    /// Kind 0: the miner's key and the time it signed.
    Ready { pubkey: [u8; 32], timestamp: u64 },
    /// Kind 1.
    Mining,
    /// Kind 2: digest, nonce, the miner's key and the base58 signature text bytes.
    Solution { digest: [u8; 16], nonce: [u8; 8], pubkey: [u8; 32], signature: Vec<u8> },
    /// Any other kind.
    Unknown { kind: u8 },
}

/// Whether a binary frame is long enough for its kind to be decoded.
pub open spec fn frame_complete(d: Seq<u8>) -> bool {
    &&& d.len() >= 1
    &&& d[0] == FRAME_READY ==> d.len() >= 41
    &&& d[0] == FRAME_SOLUTION ==> d.len() >= 57
}

/// The decoded form of a complete binary frame.
pub open spec fn frame_decodes_to(d: Seq<u8>, f: ClientFrame) -> bool {
    if d[0] == FRAME_READY {
        f matches ClientFrame::Ready { pubkey, timestamp }
            && pubkey@ == d.subrange(1, 33)
            && timestamp == spec_u64_from_le_bytes(d.subrange(33, 41))
    } else if d[0] == FRAME_MINING {
        f is Mining
    } else if d[0] == FRAME_SOLUTION {
        f matches ClientFrame::Solution { digest, nonce, pubkey, signature }
            && digest@ == d.subrange(1, 17)
            && nonce@ == d.subrange(17, 25)
            && pubkey@ == d.subrange(25, 57)
            && signature@ == d.subrange(57, d.len() as int)
    } else {
        f == (ClientFrame::Unknown { kind: d[0] })
    }
}

/// Copies `N` bytes of `d` starting at `off` into an array.
fn copy_array<const N: usize>(d: &[u8], off: usize) -> (r: [u8; N])
    requires
        off + N <= d@.len(),
    ensures
        r@ == d@.subrange(off as int, off + N),
{
    let mut r = [0u8; N];
    let len = d.len();
    let mut i: usize = 0;
    while i < N
        invariant
            0 <= i <= N,
            len == d@.len(),
            off + N <= d@.len(),
            r@.len() == N,
            forall|j: int| 0 <= j < i ==> r@[j] == d@[off + j],
        decreases N - i,
    {
        r[i] = d[off + i];
        i = i + 1;
    }
    assert(r@ =~= d@.subrange(off as int, off + N));
    r
}

/// Copies the bytes of `d` from `off` to the end.
fn copy_tail(d: &[u8], off: usize) -> (r: Vec<u8>)
    requires
        off <= d@.len(),
    ensures
        r@ == d@.subrange(off as int, d@.len() as int),
{
    let mut r: Vec<u8> = Vec::new();
    let mut i: usize = off;
    while i < d.len()
        invariant
            off <= i <= d@.len(),
            r@ == d@.subrange(off as int, i as int),
        decreases d@.len() - i,
    {
        r.push(d[i]);
        i = i + 1;
        assert(r@ =~= d@.subrange(off as int, i as int));
    }
    r
}

/// Decodes a complete binary frame sent by a miner.
pub fn parse_client_frame(d: &[u8]) -> (f: ClientFrame)
    requires
        frame_complete(d@),
    ensures
        frame_decodes_to(d@, f),
{
    let kind = d[0];
    if kind == FRAME_READY {
        let pubkey: [u8; 32] = copy_array(d, 1);
        let ts: [u8; 8] = copy_array(d, 33);
        let timestamp = u64_from_le_bytes(ts.as_slice());
        ClientFrame::Ready { pubkey, timestamp }
    } else if kind == FRAME_MINING {
        ClientFrame::Mining
    } else if kind == FRAME_SOLUTION {
        let digest: [u8; 16] = copy_array(d, 1);
        let nonce: [u8; 8] = copy_array(d, 17);
        let pubkey: [u8; 32] = copy_array(d, 25);
        let signature = copy_tail(d, 57);
        ClientFrame::Solution { digest, nonce, pubkey, signature }
    } else {
        ClientFrame::Unknown { kind }
    }
}

/// The message a miner signs for a solution: the digest followed by the nonce.
pub fn solution_message(digest: &[u8; 16], nonce: &[u8; 8]) -> (m: [u8; 24])
    ensures
        m@ == digest@ + nonce@,
{
    let mut m = [0u8; 24];
    let mut i: usize = 0;
    while i < 24
        invariant
            0 <= i <= 24,
            m@.len() == 24,
            forall|j: int| 0 <= j < i ==> m@[j] == (digest@ + nonce@)[j],
        decreases 24 - i,
    {
        if i < 16 {
            m[i] = digest[i];
        } else {
            m[i] = nonce[i - 16];
        }
        i = i + 1;
    }
    assert(m@ =~= digest@ + nonce@);
    m
}

/// Whether the signature text bytes of a solution frame carry a valid signature
/// by `pubkey` of the digest and nonce.
pub open spec fn solution_signed(digest: Seq<u8>, nonce: Seq<u8>, pubkey: Seq<u8>, signature: Seq<u8>) -> bool {
    &&& valid_utf8(signature)
    &&& base58_signature(decode_utf8(signature)) matches Some(sig)
    &&& ed25519_verifies(sig, pubkey, digest + nonce)
}

/// Checks the signature of a solution frame.
pub fn check_solution_signature(digest: &[u8; 16], nonce: &[u8; 8], pubkey: &[u8; 32], signature: Vec<u8>) -> (r: bool)
    ensures
        r == solution_signed(digest@, nonce@, pubkey@, signature@),
{
    let ghost sig_bytes = signature@;
    match utf8_to_string(signature) {
        Some(text) => match parse_signature(text.as_str()) {
            Some(sig) => {
                let message = solution_message(digest, nonce);
                verify_signature(&sig, pubkey, message.as_slice())
            },
            None => false,
        },
        None => false,
    }
}

/// Whether handling `msg` at time `now` stays within what the handler can decode:
/// a binary frame is complete, and a ready frame is not signed in the future.
pub open spec fn message_handleable(msg: WsMessage, now: u64) -> bool {
    msg matches WsMessage::Binary(d) ==> {
        &&& frame_complete(d@)
        &&& d@[0] == FRAME_READY ==> spec_u64_from_le_bytes(d@.subrange(33, 41)) <= now
    }
}

/// What handling `msg` from connection `who` at time `now` yields: whether to
/// keep reading from the connection and what to hand on to the pool.
pub open spec fn handled<A>(msg: WsMessage, who: A, now: u64) -> (ControlFlow<(), ()>, Option<ClientMessage<A>>) {
    match msg {
        WsMessage::Binary(d) => {
            let d = d@;
            if d[0] == FRAME_READY {
                let ts = spec_u64_from_le_bytes(d.subrange(33, 41));
                if now - ts > READY_MAX_AGE_SECS {
                    (ControlFlow::Break(()), None)
                } else {
                    (ControlFlow::Continue(()), Some(ClientMessage::Ready(who)))
                }
            } else if d[0] == FRAME_MINING {
                (ControlFlow::Continue(()), Some(ClientMessage::Mining(who)))
            } else {
                (ControlFlow::Continue(()), None)
            }
        },
        WsMessage::Close(_) => (ControlFlow::Break(()), None),
        _ => (ControlFlow::Continue(()), None),
    }
}

/// Handles one websocket message from a miner. Ready frames older than five
/// seconds end the connection; a solution frame is handed on only when its
/// signature checks; a close message ends the connection; everything else is
/// ignored.
pub fn process_message<A>(msg: WsMessage, who: A, now: u64) -> (r: (ControlFlow<(), ()>, Option<ClientMessage<A>>))
    requires
        message_handleable(msg, now),
    ensures
        match msg {
            WsMessage::Binary(d) => if d@[0] == FRAME_SOLUTION {
                let digest = d@.subrange(1, 17);
                let nonce = d@.subrange(17, 25);
                let pubkey = d@.subrange(25, 57);
                let signature = d@.subrange(57, d@.len() as int);
                &&& r.0 == ControlFlow::<(), ()>::Continue(())
                &&& (r.1 is Some <==> solution_signed(digest, nonce, pubkey, signature))
                &&& r.1 matches Some(m) ==> (m matches ClientMessage::BestSolution(a, sol, key)
                    && a == who && sol.d@ == digest && sol.n@ == nonce && key@ == pubkey)
            } else {
                r == handled(msg, who, now)
            },
            _ => r == handled(msg, who, now),
        },
{
    match msg {
        WsMessage::Text(_) => (ControlFlow::Continue(()), None),
        WsMessage::Binary(d) => {
            let frame = parse_client_frame(d.as_slice());
            match frame {
                ClientFrame::Ready { pubkey: _, timestamp } => {
                    let time_since = now - timestamp;
                    if time_since > READY_MAX_AGE_SECS {
                        (ControlFlow::Break(()), None)
                    } else {
                        (ControlFlow::Continue(()), Some(ClientMessage::Ready(who)))
                    }
                },
                ClientFrame::Mining => (ControlFlow::Continue(()), Some(ClientMessage::Mining(who))),
                ClientFrame::Solution { digest, nonce, pubkey, signature } => {
                    if check_solution_signature(&digest, &nonce, &pubkey, signature) {
                        let solution = Solution::new(digest, nonce);
                        (ControlFlow::Continue(()), Some(ClientMessage::BestSolution(who, solution, pubkey)))
                    } else {
                        (ControlFlow::Continue(()), None)
                    }
                },
                ClientFrame::Unknown { kind: _ } => (ControlFlow::Continue(()), None),
            }
        },
        WsMessage::Ping(_) => (ControlFlow::Continue(()), None),
        WsMessage::Pong(_) => (ControlFlow::Continue(()), None),
        WsMessage::Close(_) => (ControlFlow::Break(()), None),
    }
}

/// The "start mining" frame sent to a ready miner: kind 0, the challenge, the
/// seconds left until the cutoff, and the assigned nonce range, integers in
/// little-endian.
pub open spec fn spec_start_frame(challenge: Seq<u8>, cutoff: i64, range: NonceRange) -> Seq<u8> {
    seq![FRAME_READY] + challenge + spec_u64_to_le_bytes(cutoff as u64)
        + spec_u64_to_le_bytes(range.start) + spec_u64_to_le_bytes(range.end)
}

/// A miner reading a "start mining" frame gets back what the pool put in: kind
/// 0, the challenge in bytes 1..33, the cutoff in bytes 33..41 and the range's
/// start and end in bytes 41..49 and 49..57.
pub proof fn lemma_start_frame_fields(challenge: Seq<u8>, cutoff: i64, range: NonceRange)
    requires
        challenge.len() == 32,
    ensures
        ({
            let f = spec_start_frame(challenge, cutoff, range);
            &&& f.len() == 57
            &&& f[0] == FRAME_READY
            &&& f.subrange(1, 33) == challenge
            &&& spec_u64_from_le_bytes(f.subrange(33, 41)) == cutoff as u64
            &&& spec_u64_from_le_bytes(f.subrange(41, 49)) == range.start
            &&& spec_u64_from_le_bytes(f.subrange(49, 57)) == range.end
        }),
{
    vstd::bytes::lemma_auto_spec_u64_to_from_le_bytes();
    let c = spec_u64_to_le_bytes(cutoff as u64);
    let a = spec_u64_to_le_bytes(range.start);
    let b = spec_u64_to_le_bytes(range.end);
    let f = spec_start_frame(challenge, cutoff, range);
    assert(f.subrange(1, 33) =~= challenge);
    assert(f.subrange(33, 41) =~= c);
    assert(f.subrange(41, 49) =~= a);
    assert(f.subrange(49, 57) =~= b);
}

/// A ready frame ends the connection exactly when its signed timestamp is more
/// than five seconds old, and otherwise hands on the miner's readiness; a
/// mining frame is always handed on; a close message always ends the
/// connection.
pub proof fn lemma_ready_and_close<A>(d: Vec<u8>, who: A, now: u64)
    requires
        frame_complete(d@),
    ensures
        d@[0] == 0 ==> ({
            let ts = spec_u64_from_le_bytes(d@.subrange(33, 41));
            let h = handled(WsMessage::Binary(d), who, now);
            &&& (h.0 is Break <==> now - ts > 5)
            &&& (now - ts <= 5 ==> h.1 == Some(ClientMessage::Ready(who)))
            &&& (now - ts > 5 ==> h.1 is None)
        }),
        d@[0] == 1 ==> handled(WsMessage::Binary(d), who, now) == (ControlFlow::<(), ()>::Continue(()), Some(ClientMessage::Mining(who))),
        handled(WsMessage::Close(None), who, now).0 is Break,
{
}

/// Appends all bytes of `src` to `dst`.
fn append_bytes(dst: &mut Vec<u8>, src: &[u8])
    ensures
        final(dst)@ == old(dst)@ + src@,
{
    let mut i: usize = 0;
    while i < src.len()
        invariant
            0 <= i <= src@.len(),
            dst@ == old(dst)@ + src@.subrange(0, i as int),
        decreases src@.len() - i,
    {
        dst.push(src[i]);
        i = i + 1;
        assert(dst@ =~= old(dst)@ + src@.subrange(0, i as int));
    }
    assert(src@.subrange(0, src@.len() as int) =~= src@);
}

/// Builds the "start mining" frame for a miner.
pub fn encode_start_frame(challenge: &[u8; 32], cutoff: i64, range: NonceRange) -> (f: Vec<u8>)
    ensures
        f@ == spec_start_frame(challenge@, cutoff, range),
        f@.len() == START_FRAME_LEN,
{
    let mut f: Vec<u8> = Vec::new();
    f.push(FRAME_READY);
    append_bytes(&mut f, challenge.as_slice());
    let c = u64_to_le_bytes(cutoff as u64);
    append_bytes(&mut f, c.as_slice());
    let s = u64_to_le_bytes(range.start);
    append_bytes(&mut f, s.as_slice());
    let e = u64_to_le_bytes(range.end);
    append_bytes(&mut f, e.as_slice());
    assert(f@ =~= spec_start_frame(challenge@, cutoff, range));
    f
}

} // verus!
