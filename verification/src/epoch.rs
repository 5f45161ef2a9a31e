//! Bookkeeping of one mining epoch: every miner's latest accepted submission and
//! the best solution seen so far.

use vstd::prelude::*;
use vstd::arithmetic::power2::{pow2, lemma2_to64, lemma2_to64_rest, lemma_pow2_unfold, lemma_pow2_strictly_increases};
use crate::keyed::{PubkeyMap, inserted, has_key, index_of_key};
use crate::nonce::NonceRange;
use crate::solution::{Solution, spec_nonce, spec_difficulty};
use crate::chain::drillx_valid;

verus! {

/// Hashpower credited for a solution of the lowest scored difficulty.
pub const MIN_HASHPOWER: u64 = 5;
/// The lowest difficulty that earns hashpower.
pub const MIN_DIFF: u32 = 5;
/// The highest difficulty whose hashpower fits in a `u64`.
pub const MAX_SCORED_DIFF: u32 = 66;

/// Hashpower of a solution of difficulty `diff`: it doubles with every extra bit.
pub open spec fn spec_hashpower(diff: u32) -> nat {
    (MIN_HASHPOWER as nat) * pow2((diff - MIN_DIFF) as nat)
}

/// Hashpower starts at 5 for the lowest scored difficulty and doubles with every
/// extra bit of difficulty.
pub proof fn lemma_hashpower_doubles(diff: u32)
    requires
        MIN_DIFF <= diff < MAX_SCORED_DIFF,
    ensures
        spec_hashpower(MIN_DIFF) == 5,
        spec_hashpower((diff + 1) as u32) == 2 * spec_hashpower(diff),
        spec_hashpower(diff) < spec_hashpower((diff + 1) as u32),
{
    lemma_pow2_unfold((diff + 1 - 5) as nat);
    vstd::arithmetic::power2::lemma_pow2_pos((diff - 5) as nat);
    assert(pow2(0) == 1) by {
        lemma2_to64();
    }
}

/// Whether a solution of difficulty `diff` can be scored without overflow.
pub open spec fn scorable(diff: u32) -> bool {
    MIN_DIFF <= diff <= MAX_SCORED_DIFF
}

/// Hashpower of a solution of difficulty `diff`.
pub fn hashpower(diff: u32) -> (r: u64)
    requires
        scorable(diff),
    ensures
        r == spec_hashpower(diff),
        r == 5 * pow2((diff - 5) as nat),
{
    let k = diff - MIN_DIFF;
    let mut p: u64 = 1;
    let mut i: u32 = 0;
    proof {
        lemma2_to64();
        lemma2_to64_rest();
    }
    while i < k
        invariant
            0 <= i <= k <= 61,
            p == pow2(i as nat),
            pow2(61) == 0x2000000000000000,
        decreases k - i,
    {
        proof {
            lemma_pow2_unfold((i + 1) as nat);
            if i + 1 < 61 {
                lemma_pow2_strictly_increases((i + 1) as nat, 61);
            }
        }
        p = p * 2;
        i = i + 1;
    }
    MIN_HASHPOWER * p
}

/// The best solution of the epoch and its difficulty.
#[derive(Clone, Copy, Debug)]
pub struct BestHash {
    pub solution: Option<Solution>,
    pub difficulty: u32,
}

/// What happened to a submitted solution.
#[derive(Clone, Copy, Debug, PartialEq, Eq)]
pub enum SolutionVerdict {
    /// No nonce range was ever assigned to the submitting miner.
    NoNonceRange,
    /// The nonce lies outside the range assigned to the miner.
    NonceOutOfRange,
    /// The digest is not a valid solution for the current challenge.
    Invalid,
    /// Valid, but below the pool's minimum difficulty.
    TooEasy { difficulty: u32 },
    /// Valid and hard enough, but of a difficulty whose hashpower cannot be represented.
    Unscorable { difficulty: u32 },
    /// Recorded for the miner; `new_best` when it beat the epoch's best solution.
    Accepted { difficulty: u32, hashpower: u64, new_best: bool },
}

/// Sum of the hashpower of a list of submissions.
pub open spec fn sum_hashpower(entries: Seq<([u8; 32], (u32, u64))>) -> nat
    decreases entries.len(),
{
    if entries.len() == 0 {
        0
    } else {
        sum_hashpower(entries.drop_last()) + (entries.last().1.1 as nat)
    }
}

/// The submissions of one epoch: per miner (keyed by public key) the difficulty
/// and hashpower of its latest accepted solution, and the best solution so far.
pub struct EpochHashes {
    pub best_hash: BestHash,
    pub submissions: PubkeyMap<(u32, u64)>,
    /// The solutions accepted since the epoch began, in order: each one's
    /// difficulty and the minimum difficulty it was judged against.
    pub accepted: Ghost<Seq<(u32, u32)>>,
}

/// The highest difficulty among accepted solutions (0 when there are none).
pub open spec fn max_accepted(h: Seq<(u32, u32)>) -> u32
    decreases h.len(),
{
    if h.len() == 0 {
        0
    } else {
        let m = max_accepted(h.drop_last());
        if h.last().0 > m { h.last().0 } else { m }
    }
}

impl EpochHashes {
    /// The epoch's invariant: one entry per miner; every recorded difficulty is
    /// scorable, carries its hashpower, is at most the best difficulty and is the
    /// difficulty of a solution accepted since the epoch began that reached the
    /// minimum it was judged against; the best difficulty is the highest accepted
    /// since the epoch began; a best solution is present exactly when the best
    /// difficulty is non-zero.
    pub open spec fn wf(&self) -> bool {
        &&& self.submissions.wf()
        &&& (self.best_hash.solution is None <==> self.best_hash.difficulty == 0)
        &&& self.best_hash.difficulty == max_accepted(self.accepted@)
        &&& forall|j: int| 0 <= j < self.accepted@.len() ==> #[trigger] self.accepted@[j].1 <= self.accepted@[j].0
        &&& forall|i: int| 0 <= i < self.submissions.entries().len() ==> {
            let e = #[trigger] self.submissions.entries()[i];
            &&& scorable(e.1.0)
            &&& e.1.1 == spec_hashpower(e.1.0)
            &&& e.1.0 <= self.best_hash.difficulty
            &&& exists|j: int| 0 <= j < self.accepted@.len() && #[trigger] self.accepted@[j].0 == e.1.0
                && self.accepted@[j].1 <= e.1.0
        }
    }

    /// Whether nothing has been recorded.
    pub open spec fn is_empty(&self) -> bool {
        &&& self.best_hash.solution is None
        &&& self.best_hash.difficulty == 0
        &&& self.submissions.entries().len() == 0
        &&& self.accepted@.len() == 0
    }

    /// An epoch with no submissions.
    pub fn new() -> (r: Self)
        ensures
            r.wf(),
            r.is_empty(),
    {
        EpochHashes {
            best_hash: BestHash { solution: None, difficulty: 0 },
            submissions: PubkeyMap::new(),
            accepted: Ghost(Seq::empty()),
        }
    }

    /// A copy of the epoch's submissions and best solution.
    pub fn snapshot(&self) -> (r: Self)
        requires
            self.wf(),
        ensures
            r.wf(),
            r.best_hash == self.best_hash,
            r.submissions.entries() == self.submissions.entries(),
            r.accepted@ == self.accepted@,
    {
        EpochHashes {
            best_hash: self.best_hash,
            submissions: self.submissions.duplicate(),
            accepted: Ghost(self.accepted@),
        }
    }

    /// Forgets all submissions and the best solution (a new challenge began).
    pub fn reset(&mut self)
        ensures
            final(self).wf(),
            final(self).is_empty(),
    {
        self.best_hash = BestHash { solution: None, difficulty: 0 };
        self.submissions.clear();
        self.accepted = Ghost(Seq::empty());
    }

    /// Records a solution of difficulty `diff` for `pubkey`, accepted against the
    /// minimum `min_difficulty`, replacing the miner's earlier entry, and makes it
    /// the best solution when it is strictly harder.
    pub fn record(&mut self, pubkey: [u8; 32], solution: Solution, diff: u32, min_difficulty: u32) -> (hp: u64)
        requires
            old(self).wf(),
            scorable(diff),
            min_difficulty <= diff,
        ensures
            final(self).accepted@ == old(self).accepted@.push((diff, min_difficulty)),
            final(self).wf(),
            hp == spec_hashpower(diff),
            final(self).submissions.entries() == inserted(old(self).submissions.entries(), pubkey, (diff, hp)),
            diff > old(self).best_hash.difficulty ==> final(self).best_hash == (BestHash { solution: Some(solution), difficulty: diff }),
            diff <= old(self).best_hash.difficulty ==> final(self).best_hash == old(self).best_hash,
    {
        let hp = hashpower(diff);
        let ghost old_entries = self.submissions.entries();
        let ghost old_best = self.best_hash.difficulty;
        let ghost old_accepted = self.accepted@;
        self.submissions.insert(pubkey, (diff, hp));
        if diff > self.best_hash.difficulty {
            self.best_hash = BestHash { solution: Some(solution), difficulty: diff };
        }
        self.accepted = Ghost(old_accepted.push((diff, min_difficulty)));
        proof {
            let h = self.accepted@;
            assert(h.drop_last() =~= old_accepted);
            let n = old_accepted.len() as int;
            assert(h[n] == (diff, min_difficulty));
            let e = self.submissions.entries();
            assert forall|i: int| 0 <= i < e.len() implies {
                let x = #[trigger] e[i];
                &&& scorable(x.1.0)
                &&& x.1.1 == spec_hashpower(x.1.0)
                &&& x.1.0 <= self.best_hash.difficulty
                &&& exists|j: int| 0 <= j < h.len() && #[trigger] h[j].0 == x.1.0 && h[j].1 <= x.1.0
            } by {
                let fresh = if has_key(old_entries, pubkey@) {
                    i == index_of_key(old_entries, pubkey@)
                } else {
                    i >= old_entries.len()
                };
                if fresh {
                    assert(e[i] == (pubkey, (diff, hp)));
                    assert(h[n].0 == e[i].1.0);
                } else {
                    assert(e[i] == old_entries[i]);
                    let j = choose|j: int| 0 <= j < old_accepted.len() && #[trigger] old_accepted[j].0 == old_entries[i].1.0
                        && old_accepted[j].1 <= old_entries[i].1.0;
                    assert(h[j] == old_accepted[j]);
                    assert(h[j].0 == e[i].1.0);
                }
            }
        }
        hp
    }

    /// Judges a submitted solution given the miner's assigned nonce range, whether
    /// the solution is valid for the current challenge and its difficulty, and
    /// records it when accepted. A solution is accepted exactly when a range was
    /// assigned, its nonce lies in that range, it is valid and its difficulty
    /// reaches `min_difficulty`.
    pub fn apply_judged(
        &mut self,
        range: Option<NonceRange>,
        pubkey: [u8; 32],
        solution: Solution,
        valid: bool,
        difficulty: u32,
        min_difficulty: u32,
    ) -> (v: SolutionVerdict)
        requires
            old(self).wf(),
            (range matches Some(r) && r.spec_contains(spec_nonce(solution.n)) && valid
                && difficulty >= min_difficulty) ==> scorable(difficulty),
        ensures
            final(self).wf(),
            v == judged_verdict(old(self).best_hash.difficulty, range, solution, valid, difficulty, min_difficulty),
            v matches SolutionVerdict::Accepted { .. } ==> {
                &&& final(self).submissions.entries() == inserted(old(self).submissions.entries(), pubkey,
                    (difficulty, spec_hashpower(difficulty) as u64))
                &&& final(self).best_hash == (if difficulty > old(self).best_hash.difficulty {
                    BestHash { solution: Some(solution), difficulty }
                } else {
                    old(self).best_hash
                })
                &&& final(self).accepted@ == old(self).accepted@.push((difficulty, min_difficulty))
            },
            !(v matches SolutionVerdict::Accepted { .. }) ==> *final(self) == *old(self),
            (range matches Some(r) && r.start <= spec_nonce(solution.n) && spec_nonce(solution.n) < r.end
                && valid && difficulty >= min_difficulty) ==> v == (SolutionVerdict::Accepted {
                difficulty,
                hashpower: (5 * pow2((difficulty - 5) as nat)) as u64,
                new_best: difficulty > old(self).best_hash.difficulty,
            }),
            (range matches Some(r) && !(r.start <= spec_nonce(solution.n) && spec_nonce(solution.n) < r.end))
                ==> v == SolutionVerdict::NonceOutOfRange,
    {
        let r = match range {
            Some(r) => r,
            None => {
                return SolutionVerdict::NoNonceRange;
            },
        };
        let nonce = solution.nonce();
        if !r.contains(nonce) {
            return SolutionVerdict::NonceOutOfRange;
        }
        if !valid {
            return SolutionVerdict::Invalid;
        }
        if difficulty < min_difficulty {
            return SolutionVerdict::TooEasy { difficulty };
        }
        let new_best = difficulty > self.best_hash.difficulty;
        let hp = self.record(pubkey, solution, difficulty, min_difficulty);
        SolutionVerdict::Accepted { difficulty, hashpower: hp, new_best }
    }

    /// Judges and records a solution submitted by `pubkey` for `challenge`: the
    /// nonce range comes from `ranges`, validity and difficulty from drillx. A
    /// solution whose difficulty cannot be scored is reported `Unscorable` and
    /// leaves the epoch unchanged.
    pub fn apply_solution(
        &mut self,
        ranges: &PubkeyMap<NonceRange>,
        pubkey: [u8; 32],
        solution: Solution,
        challenge: &[u8; 32],
        min_difficulty: u32,
    ) -> (v: SolutionVerdict)
        requires
            old(self).wf(),
            ranges.wf(),
        ensures
            final(self).wf(),
            solution_outcome(*old(self), *final(self), *ranges, pubkey, solution, challenge@, min_difficulty, v),
    {
        let range = ranges.get(&pubkey);
        let nonce = solution.nonce();
        let in_range = match range {
            Some(r) => r.contains(nonce),
            None => false,
        };
        let valid = if in_range { solution.is_valid(challenge) } else { false };
        let difficulty = if in_range && valid { solution.difficulty() } else { 0 };
        if in_range && valid && difficulty >= min_difficulty && !(MIN_DIFF <= difficulty && difficulty <= MAX_SCORED_DIFF) {
            return SolutionVerdict::Unscorable { difficulty };
        }
        let v = self.apply_judged(range, pubkey, solution, valid, difficulty, min_difficulty);
        v
    }

    /// Sum of the hashpower of all recorded submissions.
    pub fn total_hashpower(&self) -> (r: u64)
        requires
            self.wf(),
            sum_hashpower(self.submissions.entries()) <= u64::MAX,
        ensures
            r == sum_hashpower(self.submissions.entries()),
    {
        let n = self.submissions.len();
        let mut total: u64 = 0;
        let mut i: usize = 0;
        while i < n
            invariant
                n == self.submissions.entries().len(),
                0 <= i <= n,
                total == sum_hashpower(self.submissions.entries().take(i as int)),
                sum_hashpower(self.submissions.entries()) <= u64::MAX,
            decreases n - i,
        {
            let e = self.submissions.entry(i);
            proof {
                let s = self.submissions.entries();
                assert(s.take(i + 1).drop_last() =~= s.take(i as int));
                lemma_sum_hashpower_prefix(s, i + 1);
            }
            total = total + e.1.1;
            i = i + 1;
        }
        proof {
            assert(self.submissions.entries().take(n as int) =~= self.submissions.entries());
        }
        total
    }
}

/// The outcome of `apply_solution` on epoch `old` giving `new` and verdict `v`:
/// the solution is judged with the nonce range assigned to `pubkey` and with
/// drillx's validity and difficulty; an accepted solution of scorable difficulty
/// is recorded, one of unscorable difficulty is reported and dropped, and any
/// other verdict leaves the epoch unchanged.
pub open spec fn solution_outcome(
    old: EpochHashes,
    new: EpochHashes,
    ranges: PubkeyMap<NonceRange>,
    pubkey: [u8; 32],
    solution: Solution,
    challenge: Seq<u8>,
    min_difficulty: u32,
    v: SolutionVerdict,
) -> bool {
    let range = if ranges.contains(pubkey@) { Some(ranges.value_of(pubkey@)) } else { None };
    let valid = drillx_valid(challenge, solution.n@, solution.d@);
    let diff = spec_difficulty(solution);
    let difficulty = diff as u32;
    let judged = judged_verdict(old.best_hash.difficulty, range, solution, valid, difficulty, min_difficulty);
    if judged is Accepted {
        if scorable(difficulty) {
            &&& v == judged
            &&& new.submissions.entries() == inserted(old.submissions.entries(), pubkey,
                (difficulty, spec_hashpower(difficulty) as u64))
            &&& new.best_hash == (if difficulty > old.best_hash.difficulty {
                BestHash { solution: Some(solution), difficulty }
            } else {
                old.best_hash
            })
            &&& new.accepted@ == old.accepted@.push((difficulty, min_difficulty))
        } else {
            &&& v == SolutionVerdict::Unscorable { difficulty }
            &&& new == old
        }
    } else {
        &&& v == judged
        &&& new == old
    }
}

/// The verdict on a solution given the assigned range, its validity and difficulty.
pub open spec fn judged_verdict(
    best_difficulty: u32,
    range: Option<NonceRange>,
    solution: Solution,
    valid: bool,
    difficulty: u32,
    min_difficulty: u32,
) -> SolutionVerdict {
    match range {
        None => SolutionVerdict::NoNonceRange,
        Some(r) => if !r.spec_contains(spec_nonce(solution.n)) {
            SolutionVerdict::NonceOutOfRange
        } else if !valid {
            SolutionVerdict::Invalid
        } else if difficulty < min_difficulty {
            SolutionVerdict::TooEasy { difficulty }
        } else {
            SolutionVerdict::Accepted {
                difficulty,
                hashpower: spec_hashpower(difficulty) as u64,
                new_best: difficulty > best_difficulty,
            }
        },
    }
}

/// The verdict on a solution depends on its nonce only through the assigned
/// range's bounds: a valid solution whose nonce lies anywhere from the range's
/// start up to its end and that reaches the minimum difficulty is accepted and
/// credited 5 doubled once per bit above difficulty 5; a nonce outside the
/// bounds is refused as out of range.
pub proof fn lemma_verdict_by_range(
    best_difficulty: u32,
    r: NonceRange,
    solution: Solution,
    valid: bool,
    difficulty: u32,
    min_difficulty: u32,
)
    ensures
        (r.start <= spec_nonce(solution.n) < r.end && valid && difficulty >= min_difficulty) ==>
            judged_verdict(best_difficulty, Some(r), solution, valid, difficulty, min_difficulty)
                == (SolutionVerdict::Accepted {
                    difficulty,
                    hashpower: (5 * pow2((difficulty - 5) as nat)) as u64,
                    new_best: difficulty > best_difficulty,
                }),
        !(r.start <= spec_nonce(solution.n) < r.end) ==>
            judged_verdict(best_difficulty, Some(r), solution, valid, difficulty, min_difficulty)
                == SolutionVerdict::NonceOutOfRange,
{
}

/// The highest accepted difficulty bounds every accepted difficulty, and is one
/// of them when any solution was accepted.
pub proof fn lemma_max_accepted(h: Seq<(u32, u32)>)
    ensures
        forall|j: int| 0 <= j < h.len() ==> #[trigger] h[j].0 <= max_accepted(h),
        h.len() > 0 ==> exists|j: int| 0 <= j < h.len() && #[trigger] h[j].0 == max_accepted(h),
        h.len() == 0 ==> max_accepted(h) == 0,
    decreases h.len(),
{
    if h.len() > 0 {
        let init = h.drop_last();
        lemma_max_accepted(init);
        assert forall|j: int| 0 <= j < h.len() implies #[trigger] h[j].0 <= max_accepted(h) by {
            if j < init.len() {
                assert(h[j] == init[j]);
            }
        }
        if h.last().0 > max_accepted(init) || init.len() == 0 {
            assert(h[h.len() - 1].0 == max_accepted(h));
        } else {
            let j = choose|j: int| 0 <= j < init.len() && #[trigger] init[j].0 == max_accepted(init);
            assert(h[j] == init[j]);
        }
    }
}

/// The epoch law: when every solution accepted since the epoch began was judged
/// against a minimum of at least `min_difficulty`, the best difficulty is the
/// highest difficulty accepted since then (0 if none), a best solution is held
/// exactly when it is non-zero, and every miner's entry has a difficulty between
/// `min_difficulty` and the best difficulty and the hashpower of that difficulty.
pub proof fn lemma_epoch_bounds(epoch: EpochHashes, min_difficulty: u32)
    requires
        epoch.wf(),
        forall|j: int| 0 <= j < epoch.accepted@.len() ==> #[trigger] epoch.accepted@[j].1 >= min_difficulty,
    ensures
        epoch.best_hash.difficulty == max_accepted(epoch.accepted@),
        forall|j: int| 0 <= j < epoch.accepted@.len() ==> #[trigger] epoch.accepted@[j].0 <= epoch.best_hash.difficulty,
        epoch.accepted@.len() > 0 ==> exists|j: int| 0 <= j < epoch.accepted@.len()
            && #[trigger] epoch.accepted@[j].0 == epoch.best_hash.difficulty,
        epoch.accepted@.len() == 0 ==> epoch.best_hash.difficulty == 0,
        epoch.best_hash.solution is None <==> epoch.best_hash.difficulty == 0,
        forall|i: int| 0 <= i < epoch.submissions.entries().len() ==> {
            let e = #[trigger] epoch.submissions.entries()[i];
            &&& min_difficulty <= e.1.0 <= epoch.best_hash.difficulty
            &&& e.1.1 == spec_hashpower(e.1.0)
        },
{
    lemma_max_accepted(epoch.accepted@);
    assert forall|i: int| 0 <= i < epoch.submissions.entries().len() implies {
        let e = #[trigger] epoch.submissions.entries()[i];
        &&& min_difficulty <= e.1.0 <= epoch.best_hash.difficulty
        &&& e.1.1 == spec_hashpower(e.1.0)
    } by {
        let e = epoch.submissions.entries()[i];
        let j = choose|j: int| 0 <= j < epoch.accepted@.len() && #[trigger] epoch.accepted@[j].0 == e.1.0
            && epoch.accepted@[j].1 <= e.1.0;
        assert(epoch.accepted@[j].1 >= min_difficulty);
    }
}

/// A prefix of a list of submissions never has more hashpower than the whole list.
pub proof fn lemma_sum_hashpower_prefix(s: Seq<([u8; 32], (u32, u64))>, k: int)
    requires
        0 <= k <= s.len(),
    ensures
        sum_hashpower(s.take(k)) <= sum_hashpower(s),
    decreases s.len(),
{
    if k < s.len() {
        assert(s.drop_last().take(k) =~= s.take(k));
        lemma_sum_hashpower_prefix(s.drop_last(), k);
    } else {
        assert(s.take(k) =~= s);
    }
}

} // verus!
