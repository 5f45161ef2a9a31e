//! The pool's plain HTTP answers and its handling of messages forwarded from
//! miner connections.

use vstd::prelude::*;
use crate::chain::{base58_text, base64_encode, base64_standard, bincode_blockhash, pubkey_to_base58};
use crate::epoch::{EpochHashes, SolutionVerdict, solution_outcome};
use crate::keyed::PubkeyMap;
use crate::nonce::NonceRange;
use crate::wire::ClientMessage;

verus! {

/// Text sent to a miner once it is registered as ready.
pub fn ready_ack() -> (r: &'static str)
    ensures
        r@ == "Client successfully added."@,
{
    "Client successfully added."
}

/// The body of the "pool authority" answer: the authority key in base58.
pub fn authority_text(authority: &[u8; 32]) -> (r: String)
    ensures
        r@ == base58_text(authority@),
{
    pubkey_to_base58(authority)
}

/// The body of the "latest blockhash" answer: the blockhash serialized with
/// bincode (its 32 bytes) and encoded as standard base64; always present.
pub fn blockhash_text(hash: &[u8; 32]) -> (r: Option<String>)
    ensures
        r matches Some(t) && t@ == base64_standard(hash@),
{
    match bincode_blockhash(hash) {
        Some(bytes) => Some(base64_encode(bytes.as_slice())),
        None => None,
    }
}

/// What the pool does with a message forwarded from a miner connection.
#[derive(Debug)]
pub enum HandlerAction<A> {
    /// Mark the connection ready for work and acknowledge it with `ready_ack`.
    AddReady(A),
    /// Nothing to do.
    Ignore,
    /// A solution was judged (and recorded when accepted).
    Judged(SolutionVerdict),
}

/// Handles a message forwarded from miner connection `who`: a ready miner is
/// added when its connection is still registered (`connected`); a solution is
/// judged against the current `challenge` and recorded in `epoch`.
pub fn handle_client_message<A>(
    epoch: &mut EpochHashes,
    ranges: &PubkeyMap<NonceRange>,
    msg: ClientMessage<A>,
    connected: bool,
    challenge: &[u8; 32],
    min_difficulty: u32,
) -> (r: HandlerAction<A>)
    requires
        old(epoch).wf(),
        ranges.wf(),
    ensures
        final(epoch).wf(),
        match msg {
            ClientMessage::Ready(a) => {
                &&& *final(epoch) == *old(epoch)
                &&& (if connected { r == HandlerAction::AddReady(a) } else { r == HandlerAction::<A>::Ignore })
            },
            ClientMessage::Mining(_) => *final(epoch) == *old(epoch) && r == HandlerAction::<A>::Ignore,
            ClientMessage::BestSolution(_, solution, pubkey) => r matches HandlerAction::Judged(v)
                && solution_outcome(*old(epoch), *final(epoch), *ranges, pubkey, solution, challenge@, min_difficulty, v),
        },
{
    match msg {
        ClientMessage::Ready(a) => if connected {
            HandlerAction::AddReady(a)
        } else {
            HandlerAction::Ignore
        },
        ClientMessage::Mining(_) => HandlerAction::Ignore,
        ClientMessage::BestSolution(_, solution, pubkey) => {
            let v = epoch.apply_solution(ranges, pubkey, solution, challenge, min_difficulty);
            HandlerAction::Judged(v)
        },
    }
}

} // verus!
