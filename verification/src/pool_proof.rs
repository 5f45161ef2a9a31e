//! The pool's on-chain proof account: its current challenge, balance and the
//! time of its last hash, kept up to date from account notifications.

use vstd::prelude::*;
use ore_utils::AccountDeserialize;

verus! {

/// The account discriminator of an ORE proof account.
pub const PROOF_DISCRIMINATOR: u8 = 102;
/// Length of a proof account's data: an 8-byte header and the 168-byte body.
pub const PROOF_ACCOUNT_LEN: usize = 176;

/// The fields of an ORE proof account.
#[derive(Clone, Copy, Debug)]
pub struct ProofAccount {
    pub authority: [u8; 32],
    pub balance: u64,
    pub challenge: [u8; 32],
    pub last_hash: [u8; 32],
    pub last_hash_at: i64,
    pub last_stake_at: i64,
    pub miner: [u8; 32],
    pub total_hashes: u64,
    pub total_rewards: u64,
}

/// Whether account data can be handed to the decoder: it is not empty, and data
/// carrying the proof discriminator holds at least the 8-byte header.
pub open spec fn decodable(data: Seq<u8>) -> bool {
    &&& data.len() >= 1
    &&& data[0] == PROOF_DISCRIMINATOR ==> data.len() >= 8
}

/// What holds of every proof decoded from `data`: the data carries the proof
/// discriminator, has the full length, and the key and hash fields are the
/// bytes at their offsets.
pub open spec fn decoded_from(data: Seq<u8>, p: ProofAccount) -> bool {
    &&& data[0] == PROOF_DISCRIMINATOR
    &&& data.len() == PROOF_ACCOUNT_LEN
    &&& p.authority@ == data.subrange(8, 40)
    &&& p.challenge@ == data.subrange(48, 80)
    &&& p.last_hash@ == data.subrange(80, 112)
    &&& p.miner@ == data.subrange(128, 160)
}

/// `AccountDeserialize::try_from_bytes` of `ore_utils` for `ore_api::state::Proof`:
/// checks the discriminator, then reinterprets the bytes after the 8-byte header
/// in place. The reinterpretation also fails when those bytes are not suitably
/// aligned in memory, so success is not promised for any data; the integer
/// fields are read in the machine's byte order, which is not stated.
#[verifier::external_body]
fn try_decode_proof(data: &[u8]) -> (r: Option<ProofAccount>)
    requires
        decodable(data@),
    ensures
        r matches Some(p) ==> decoded_from(data@, p),
{
    match ore_api::state::Proof::try_from_bytes(data) {
        Ok(p) => Some(ProofAccount {
            authority: p.authority.to_bytes(),
            balance: p.balance,
            challenge: p.challenge,
            last_hash: p.last_hash,
            last_hash_at: p.last_hash_at,
            last_stake_at: p.last_stake_at,
            miner: p.miner.to_bytes(),
            total_hashes: p.total_hashes,
            total_rewards: p.total_rewards,
        }),
        Err(_) => None,
    }
}

/// Decodes account data as a proof account. Whatever is returned was decoded
/// from `data` (see `decoded_from`); success itself also depends on where the
/// bytes lie in memory and is not promised.
pub fn decode_proof_account(data: &[u8]) -> (r: Option<ProofAccount>)
    requires
        decodable(data@),
    ensures
        r matches Some(p) ==> decoded_from(data@, p),
{
    try_decode_proof(data)
}

/// The tracked proof after a decoding attempt: the decoded account when there
/// is one, else the proof as it was.
pub open spec fn adopted_next(before: ProofAccount, decoded: Option<ProofAccount>) -> ProofAccount {
    match decoded {
        Some(p) => p,
        None => before,
    }
}

/// Adopts the result of decoding a notification: the tracked proof becomes the
/// decoded account exactly, every field included, and that account is handed
/// back; when nothing was decoded the tracked proof stays as it was.
pub fn adopt_decoded(current: &mut ProofAccount, decoded: Option<ProofAccount>) -> (adopted: Option<ProofAccount>)
    ensures
        adopted == decoded,
        *final(current) == adopted_next(*old(current), decoded),
{
    match decoded {
        Some(p) => {
            *current = p;
            Some(p)
        },
        None => None,
    }
}

/// Applies an account notification to the tracked proof: the notification's
/// data goes to the decoder unchanged, and whatever the decoder returns is
/// adopted by `adopt_decoded`. With no data nothing is decoded and the tracked
/// proof stays as it was.
pub fn apply_proof_notification(current: &mut ProofAccount, data: Option<Vec<u8>>) -> (adopted: Option<ProofAccount>)
    requires
        data matches Some(d) ==> decodable(d@),
    ensures
        adopted matches Some(p) ==> (data matches Some(d) && decoded_from(d@, p)),
        *final(current) == adopted_next(*old(current), adopted),
        data is None ==> adopted is None,
{
    match data {
        Some(bytes) => {
            let decoded = try_decode_proof(bytes.as_slice());
            adopt_decoded(current, decoded)
        },
        None => None,
    }
}

/// The tracked proof after a run of decoding results that started from
/// `start`: the last account decoded, or `start` when none was.
pub open spec fn last_adopted(start: ProofAccount, decoded: Seq<Option<ProofAccount>>) -> ProofAccount
    decreases decoded.len(),
{
    if decoded.len() == 0 {
        start
    } else {
        match decoded.last() {
            Some(p) => p,
            None => last_adopted(start, decoded.drop_last()),
        }
    }
}

/// Over any run of notifications, each adopted by `adopt_decoded`, the tracked
/// proof ends up equal to the decoder's output for the last notification that
/// decoded, or to the starting proof when none did; a notification that did
/// not decode never changes it.
pub proof fn lemma_proof_tracking(states: Seq<ProofAccount>, decoded: Seq<Option<ProofAccount>>)
    requires
        states.len() == decoded.len() + 1,
        forall|i: int| 0 <= i < decoded.len() ==> #[trigger] states[i + 1] == adopted_next(states[i], decoded[i]),
    ensures
        states.last() == last_adopted(states[0], decoded),
        forall|i: int| 0 <= i < decoded.len() && #[trigger] decoded[i] is None ==> states[i + 1] == states[i],
    decreases decoded.len(),
{
    if decoded.len() > 0 {
        let n = decoded.len() - 1;
        assert(states[n + 1] == adopted_next(states[n], decoded[n]));
        let prefix = states.drop_last();
        assert forall|i: int| 0 <= i < decoded.drop_last().len() implies
            #[trigger] prefix[i + 1] == adopted_next(prefix[i], decoded.drop_last()[i]) by {
            assert(states[i + 1] == adopted_next(states[i], decoded[i]));
        }
        lemma_proof_tracking(prefix, decoded.drop_last());
        assert forall|i: int| 0 <= i < decoded.len() && #[trigger] decoded[i] is None implies
            states[i + 1] == states[i] by {
            assert(states[i + 1] == adopted_next(states[i], decoded[i]));
        }
    }
}

/// The discriminator of an ORE bus account.
pub const BUS_DISCRIMINATOR: u8 = 100;
/// Length of a bus account's data: an 8-byte header and the 32-byte body.
pub const BUS_ACCOUNT_LEN: usize = 40;

/// The fields of an ORE bus account.
#[derive(Clone, Copy, Debug)]
pub struct BusAccount {
    pub id: u64,
    pub rewards: u64,
    pub theoretical_rewards: u64,
    pub top_balance: u64,
}

/// Whether account data can be handed to the bus decoder: it is not empty, and
/// data carrying the bus discriminator holds at least the 8-byte header.
pub open spec fn bus_decodable(data: Seq<u8>) -> bool {
    &&& data.len() >= 1
    &&& data[0] == BUS_DISCRIMINATOR ==> data.len() >= 8
}

/// `AccountDeserialize::try_from_bytes` of `ore_utils` for `ore_api::state::Bus`:
/// checks the discriminator, then reinterprets the bytes after the header in
/// place. Success also depends on the bytes' alignment in memory and is not
/// promised; the integer fields are read in the machine's byte order, which is
/// not stated.
#[verifier::external_body]
fn try_decode_bus(data: &[u8]) -> (r: Option<BusAccount>)
    requires
        bus_decodable(data@),
    ensures
        r is Some ==> data@[0] == BUS_DISCRIMINATOR && data@.len() == BUS_ACCOUNT_LEN,
{
    match ore_api::state::Bus::try_from_bytes(data) {
        Ok(b) => Some(BusAccount {
            id: b.id,
            rewards: b.rewards,
            theoretical_rewards: b.theoretical_rewards,
            top_balance: b.top_balance,
        }),
        Err(_) => None,
    }
}

/// Decodes account data as a bus account; success is not promised (see
/// `try_decode_bus`).
pub fn decode_bus_account(data: &[u8]) -> (r: Option<BusAccount>)
    requires
        bus_decodable(data@),
    ensures
        r is Some ==> data@[0] == BUS_DISCRIMINATOR && data@.len() == BUS_ACCOUNT_LEN,
{
    try_decode_bus(data)
}

/// Whether a newly observed proof carries a different challenge, meaning the
/// pool's last submission landed and a new epoch began.
pub fn challenge_changed(old_proof: &ProofAccount, latest: &ProofAccount) -> (r: bool)
    ensures
        r == (old_proof.challenge@ != latest.challenge@),
{
    !crate::keyed::bytes32_eq(&old_proof.challenge, &latest.challenge)
}

} // verus!
