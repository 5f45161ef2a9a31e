//! Decisions of the pool's mining rounds: when to hand out work, which nonces a
//! ready miner gets, and what to do after a failed submission.

use vstd::prelude::*;
use crate::keyed::{PubkeyMap, inserted, has_key, index_of_key};
use crate::nonce::{NonceAllocator, NonceRange, NONCES_PER_CLIENT};
use crate::wire::{encode_start_frame, spec_start_frame};
use crate::chain::{ore_hash_invalid_code, ore_needs_reset_code, random_bus};

verus! {

/// Number of attempts made to submit one solution.
pub const SUBMIT_ATTEMPTS: u32 = 5;

/// Whether to hand out work in this round, and the cutoff (seconds left) to
/// tell the miners.
#[derive(Clone, Copy, Debug, PartialEq, Eq)]
pub struct RoundPlan {
    pub should_mine: bool,
    pub cutoff: i64,
}

/// Plans a round: before the cutoff work goes out with the time left; once it
/// has passed, work goes out (with cutoff 0) only while no solution is held.
pub fn plan_round(cutoff: i64, has_best_solution: bool) -> (p: RoundPlan)
    ensures
        cutoff > 0 ==> p == (RoundPlan { should_mine: true, cutoff }),
        cutoff <= 0 ==> p == (RoundPlan { should_mine: !has_best_solution, cutoff: 0 }),
{
    if cutoff <= 0 {
        RoundPlan { should_mine: !has_best_solution, cutoff: 0 }
    } else {
        RoundPlan { should_mine: true, cutoff }
    }
}

/// Gives a ready miner its next nonce range. The range is taken from the
/// allocator in any case; when the miner is still connected (`pubkey` is
/// `Some`), the range is recorded for its key and the start frame to send it is
/// returned.
pub fn assign_range(
    allocator: &mut NonceAllocator,
    ranges: &mut PubkeyMap<NonceRange>,
    pubkey: Option<[u8; 32]>,
    challenge: &[u8; 32],
    cutoff: i64,
) -> (r: (NonceRange, Option<Vec<u8>>))
    requires
        old(allocator).can_allocate(),
        old(ranges).wf(),
    ensures
        r.0 == (NonceRange { start: old(allocator).next, end: (old(allocator).next + NONCES_PER_CLIENT) as u64 }),
        final(allocator).next == r.0.end,
        final(ranges).wf(),
        match pubkey {
            Some(k) => {
                &&& final(ranges).entries() == inserted(old(ranges).entries(), k, r.0)
                &&& r.1 matches Some(f) && f@ == spec_start_frame(challenge@, cutoff, r.0)
            },
            None => {
                &&& final(ranges).entries() == old(ranges).entries()
                &&& r.1 is None
            },
        },
{
    let range = allocator.allocate();
    match pubkey {
        Some(k) => {
            ranges.insert(k, range);
            let frame = encode_start_frame(challenge, cutoff, range);
            (range, Some(frame))
        },
        None => (range, None),
    }
}

/// Every recorded range is non-empty, ends at or below `next`, and no two
/// recorded ranges share a nonce.
pub open spec fn ranges_disjoint_below(entries: Seq<([u8; 32], NonceRange)>, next: u64) -> bool {
    &&& forall|i: int| 0 <= i < entries.len() ==> #[trigger] entries[i].1.start < entries[i].1.end <= next
    &&& forall|i: int, j: int| 0 <= i < entries.len() && 0 <= j < entries.len() && i != j
        ==> (#[trigger] entries[i].1.end <= #[trigger] entries[j].1.start || entries[j].1.end <= entries[i].1.start)
}

/// Handing out ranges never makes two miners' ranges overlap: if the recorded
/// ranges were disjoint and below the allocator's counter, they still are after
/// `assign_range`.
pub proof fn lemma_assignment_keeps_ranges_disjoint(
    entries: Seq<([u8; 32], NonceRange)>,
    next: u64,
    key: [u8; 32],
)
    requires
        ranges_disjoint_below(entries, next),
        next + NONCES_PER_CLIENT <= u64::MAX,
    ensures
        ranges_disjoint_below(
            inserted(entries, key, NonceRange { start: next, end: (next + NONCES_PER_CLIENT) as u64 }),
            (next + NONCES_PER_CLIENT) as u64,
        ),
{
    let r = NonceRange { start: next, end: (next + NONCES_PER_CLIENT) as u64 };
    let e2 = inserted(entries, key, r);
    if has_key(entries, key@) {
        let k = index_of_key(entries, key@);
        assert forall|i: int, j: int| 0 <= i < e2.len() && 0 <= j < e2.len() && i != j
            implies (#[trigger] e2[i].1.end <= #[trigger] e2[j].1.start || e2[j].1.end <= e2[i].1.start) by {
            if i != k && j != k {
                assert(e2[i] == entries[i]);
                assert(e2[j] == entries[j]);
            } else if i == k {
                assert(e2[j] == entries[j]);
                assert(entries[j].1.start < entries[j].1.end <= next);
            } else {
                assert(e2[i] == entries[i]);
                assert(entries[i].1.start < entries[i].1.end <= next);
            }
        }
        assert forall|i: int| 0 <= i < e2.len() implies #[trigger] e2[i].1.start < e2[i].1.end <= r.end by {
            if i != k {
                assert(e2[i] == entries[i]);
            }
        }
    } else {
        let n = entries.len() as int;
        assert forall|i: int, j: int| 0 <= i < e2.len() && 0 <= j < e2.len() && i != j
            implies (#[trigger] e2[i].1.end <= #[trigger] e2[j].1.start || e2[j].1.end <= e2[i].1.start) by {
            if i < n && j < n {
                assert(e2[i] == entries[i]);
                assert(e2[j] == entries[j]);
            } else if i == n {
                assert(e2[j] == entries[j]);
                assert(entries[j].1.start < entries[j].1.end <= next);
            } else {
                assert(e2[i] == entries[i]);
                assert(entries[i].1.start < entries[i].1.end <= next);
            }
        }
        assert forall|i: int| 0 <= i < e2.len() implies #[trigger] e2[i].1.start < e2[i].1.end <= r.end by {
            if i < n {
                assert(e2[i] == entries[i]);
            }
        }
    }
}

/// How a failed submission attempt was answered.
#[derive(Clone, Copy, Debug, PartialEq, Eq)]
pub enum SendFailure {
    /// The ORE program rejected the transaction with this custom error code.
    ProgramError(u32),
    /// Some other instruction error.
    OtherInstructionError,
    /// Any other failure (network, RPC, ...).
    Other,
    /// No recent blockhash could be fetched, so nothing was sent.
    NoBlockhash,
}

/// What to do after a failed submission attempt.
#[derive(Clone, Copy, Debug, PartialEq, Eq)]
pub enum AfterFailure {
    /// Go on with the next attempt right away.
    RetryNow,
    /// Go on with the next attempt after a pause.
    RetryAfterPause,
    /// Drop the solution: reset the nonce counter and the epoch, and start over.
    Reset,
}

/// The decision after attempt number `attempt` (counting from 0) failed with
/// `failure`: the epoch needing a reset, or any other program error except an
/// invalid hash, is retried at once; an invalid hash drops the solution; other
/// failures are retried after a pause until the last attempt, which drops it;
/// when no blockhash could be fetched the attempt is retried after a pause and
/// the solution is never dropped on that account.
pub fn after_failed_send(failure: SendFailure, attempt: u32) -> (a: AfterFailure)
    ensures
        a == (match failure {
            SendFailure::ProgramError(code) => if code == 1 {
                AfterFailure::Reset
            } else {
                AfterFailure::RetryNow
            },
            SendFailure::NoBlockhash => AfterFailure::RetryAfterPause,
            _ => if attempt + 1 >= SUBMIT_ATTEMPTS {
                AfterFailure::Reset
            } else {
                AfterFailure::RetryAfterPause
            },
        }),
{
    match failure {
        SendFailure::ProgramError(code) => {
            if code == ore_needs_reset_code() {
                AfterFailure::RetryNow
            } else if code == ore_hash_invalid_code() {
                AfterFailure::Reset
            } else {
                AfterFailure::RetryNow
            }
        },
        SendFailure::NoBlockhash => AfterFailure::RetryAfterPause,
        _ => {
            if attempt >= SUBMIT_ATTEMPTS - 1 {
                AfterFailure::Reset
            } else {
                AfterFailure::RetryAfterPause
            }
        },
    }
}

/// Seconds an epoch's hash stays current: the proof's minute.
pub const EPOCH_SECS: i64 = 60;

/// `x` clamped to the range of `i64`.
pub open spec fn clamp_i64(x: int) -> i64 {
    if x > i64::MAX {
        i64::MAX
    } else if x < i64::MIN {
        i64::MIN
    } else {
        x as i64
    }
}

/// Seconds left at time `now` until `buffer_time` seconds before the minute
/// that began with the proof's last hash (at `last_hash_at`) ends; negative once
/// that point has passed. Clamped to the range of `i64`.
pub fn cutoff(last_hash_at: i64, buffer_time: u64, now: i64) -> (r: i64)
    ensures
        r == clamp_i64(last_hash_at + EPOCH_SECS - buffer_time - now),
{
    let exact: i128 = last_hash_at as i128 + EPOCH_SECS as i128 - buffer_time as i128 - now as i128;
    if exact > i64::MAX as i128 {
        i64::MAX
    } else if exact < i64::MIN as i128 {
        i64::MIN
    } else {
        exact as i64
    }
}

/// The cutoff is the exact number of seconds left whenever that fits in an
/// `i64`, and it never grows as time passes.
pub proof fn lemma_cutoff(last_hash_at: i64, buffer_time: u64, now: i64, later: i64)
    requires
        now <= later,
    ensures
        i64::MIN <= last_hash_at + 60 - buffer_time - now <= i64::MAX ==>
            clamp_i64(last_hash_at + EPOCH_SECS - buffer_time - now) == last_hash_at + 60 - buffer_time - now,
        clamp_i64(last_hash_at + EPOCH_SECS - buffer_time - later)
            <= clamp_i64(last_hash_at + EPOCH_SECS - buffer_time - now),
{
}

/// Whether bus `i` has the most rewards left among the buses that could be read
/// (`Some`), being the first of them on a tie.
pub open spec fn is_best_bus(rewards: Seq<Option<u64>>, i: int) -> bool {
    &&& 0 <= i < rewards.len()
    &&& rewards[i] is Some
    &&& forall|j: int| 0 <= j < rewards.len() && rewards[j] is Some ==> rewards[j]->0 <= rewards[i]->0
    &&& forall|j: int| 0 <= j < i && rewards[j] is Some ==> rewards[j]->0 < rewards[i]->0
}

/// The bus with the most rewards left, given each bus's remaining rewards or
/// `None` when its account could not be read; `None` when none could be read.
pub fn best_bus(rewards: &Vec<Option<u64>>) -> (r: Option<usize>)
    ensures
        r matches Some(i) ==> is_best_bus(rewards@, i as int),
        r is None <==> (forall|j: int| 0 <= j < rewards@.len() ==> rewards@[j] is None),
{
    let mut best: Option<usize> = None;
    let mut i: usize = 0;
    while i < rewards.len()
        invariant
            0 <= i <= rewards@.len(),
            best matches Some(b) ==> {
                &&& b < i
                &&& rewards@[b as int] is Some
                &&& forall|j: int| 0 <= j < i && rewards@[j] is Some ==> rewards@[j]->0 <= rewards@[b as int]->0
                &&& forall|j: int| 0 <= j < b && rewards@[j] is Some ==> rewards@[j]->0 < rewards@[b as int]->0
            },
            best is None ==> forall|j: int| 0 <= j < i ==> rewards@[j] is None,
        decreases rewards@.len() - i,
    {
        if let Some(r) = rewards[i] {
            match best {
                Some(b) => {
                    if let Some(rb) = rewards[b] {
                        if r > rb {
                            best = Some(i);
                        }
                    }
                },
                None => {
                    best = Some(i);
                },
            }
        }
        i = i + 1;
    }
    best
}

/// Number of ORE buses a solution can be submitted to.
pub const BUS_COUNT: usize = 8;

/// The bus to submit to: the best bus when it could be looked up, a random one
/// otherwise.
pub fn pick_bus(best_bus: Option<usize>) -> (r: usize)
    ensures
        best_bus matches Some(b) ==> r == b,
        best_bus is None ==> r < BUS_COUNT,
{
    let mut bus = random_bus();
    if let Some(b) = best_bus {
        bus = b;
    }
    bus
}

/// Number of times the pool looks for its proof's new challenge after a
/// submission landed, before it gives up waiting.
pub const PROOF_CHECKS: u32 = 10;

/// Whether to keep waiting for the proof's challenge to change after
/// `checks_done` unchanged checks.
pub fn keep_waiting_for_proof(checks_done: u32) -> (r: bool)
    ensures
        r == (checks_done < PROOF_CHECKS),
{
    checks_done < PROOF_CHECKS
}

/// Rewards the pool earned with a solution: the growth of its proof balance.
pub fn earned_rewards(old_balance: u64, new_balance: u64) -> (r: u64)
    requires
        old_balance <= new_balance,
    ensures
        r == new_balance - old_balance,
{
    new_balance - old_balance
}

} // verus!
