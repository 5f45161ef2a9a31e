//! How the rewards a mined solution earned for the pool are shared among the
//! miners, in proportion to the hashpower each one contributed in the epoch.

use vstd::prelude::*;
use crate::epoch::{EpochHashes, hashpower, sum_hashpower};

verus! {

/// Shares are computed in parts per million of the epoch's total hashpower.
pub const SHARE_SCALE: u128 = 1_000_000;

/// `x` clamped to the largest `u128`, as saturating `u128` arithmetic yields it.
pub open spec fn saturate_u128(x: int) -> int {
    if x > u128::MAX {
        u128::MAX as int
    } else {
        x
    }
}

/// A miner's share of the epoch in parts per million (rounded down).
pub open spec fn spec_share_ppm(hashpower: u64, total_hashpower: u64) -> int {
    saturate_u128(hashpower * SHARE_SCALE) / (total_hashpower as int)
}

/// A miner's reward: its share of `rewards`, rounded down, truncated to 64 bits.
pub open spec fn spec_miner_reward(hashpower: u64, total_hashpower: u64, rewards: u64) -> u64 {
    (saturate_u128(spec_share_ppm(hashpower, total_hashpower) * rewards) / (SHARE_SCALE as int)) as u64
}

/// Saturating multiplication of two `u128`.
fn saturating_mul_u128(a: u128, b: u128) -> (r: u128)
    ensures
        r == saturate_u128(a * b),
{
    match a.checked_mul(b) {
        Some(x) => x,
        None => u128::MAX,
    }
}

/// The reward of a miner that contributed `hashpower` out of `total_hashpower`
/// when the pool earned `rewards`.
pub fn miner_reward(hashpower: u64, total_hashpower: u64, rewards: u64) -> (r: u64)
    requires
        total_hashpower > 0,
    ensures
        r == spec_miner_reward(hashpower, total_hashpower, rewards),
{
    let share = saturating_mul_u128(hashpower as u128, SHARE_SCALE) / (total_hashpower as u128);
    let earned = saturating_mul_u128(share, rewards as u128) / SHARE_SCALE;
    earned as u64
}

/// A miner whose hashpower is part of the total never gets more than its exact
/// proportion: `reward * total <= hashpower * rewards`.
pub proof fn lemma_reward_at_most_proportion(hashpower: u64, total_hashpower: u64, rewards: u64)
    requires
        0 < total_hashpower,
        hashpower <= total_hashpower,
    ensures
        spec_miner_reward(hashpower, total_hashpower, rewards) <= rewards,
        spec_miner_reward(hashpower, total_hashpower, rewards) * total_hashpower <= hashpower * rewards,
{
    let h = hashpower as int;
    let t = total_hashpower as int;
    let rw = rewards as int;
    let s = SHARE_SCALE as int;
    assert(h * s <= u64::MAX * 1_000_000) by (nonlinear_arith)
        requires 0 <= h <= u64::MAX, s == 1_000_000;
    assert(h * s <= u128::MAX);
    let ppm = (h * s) / t;
    assert(ppm == spec_share_ppm(hashpower, total_hashpower));
    assert(ppm * t <= h * s && ppm <= s && ppm >= 0) by (nonlinear_arith)
        requires ppm == (h * s) / t, 0 < t, 0 <= h <= t, s == 1_000_000;
    assert(ppm * rw <= s * u64::MAX && ppm * rw >= 0) by (nonlinear_arith)
        requires 0 <= ppm <= s, 0 <= rw <= u64::MAX, s == 1_000_000;
    assert(ppm * rw <= u128::MAX);
    let earned = (ppm * rw) / s;
    assert(earned <= rw && earned >= 0 && earned * s <= ppm * rw) by (nonlinear_arith)
        requires earned == (ppm * rw) / s, 0 <= ppm <= s, 0 <= rw, s == 1_000_000;
    assert(spec_miner_reward(hashpower, total_hashpower, rewards) == earned);
    assert(earned * t <= h * rw) by (nonlinear_arith)
        requires earned * s <= ppm * rw, ppm * t <= h * s, s > 0, t > 0, rw >= 0, earned >= 0, ppm >= 0;
}

/// Rounding costs a miner less than one part per million of the rewards plus
/// one unit: `(reward + 1) * 1_000_000 * total + total * rewards` exceeds
/// `hashpower * 1_000_000 * rewards`. A miner holding all the hashpower gets
/// all the rewards.
pub proof fn lemma_reward_at_least_proportion(hashpower: u64, total_hashpower: u64, rewards: u64)
    requires
        0 < total_hashpower,
        hashpower <= total_hashpower,
    ensures
        (spec_miner_reward(hashpower, total_hashpower, rewards) + 1) * 1_000_000 * total_hashpower
            + total_hashpower * rewards > hashpower * 1_000_000 * rewards,
        hashpower == total_hashpower ==> spec_miner_reward(hashpower, total_hashpower, rewards) == rewards,
{
    let h = hashpower as int;
    let t = total_hashpower as int;
    let rw = rewards as int;
    let s = SHARE_SCALE as int;
    assert(h * s <= u64::MAX * 1_000_000) by (nonlinear_arith)
        requires 0 <= h <= u64::MAX, s == 1_000_000;
    assert(h * s <= u128::MAX);
    let ppm = (h * s) / t;
    assert(ppm == spec_share_ppm(hashpower, total_hashpower));
    assert(ppm * t <= h * s && ppm <= s && ppm >= 0 && ppm * t > h * s - t) by (nonlinear_arith)
        requires ppm == (h * s) / t, 0 < t, 0 <= h <= t, s == 1_000_000;
    assert(ppm * rw <= s * u64::MAX && ppm * rw >= 0) by (nonlinear_arith)
        requires 0 <= ppm <= s, 0 <= rw <= u64::MAX, s == 1_000_000;
    assert(ppm * rw <= u128::MAX);
    let earned = (ppm * rw) / s;
    assert(earned <= rw && earned >= 0 && (earned + 1) * s > ppm * rw) by (nonlinear_arith)
        requires earned == (ppm * rw) / s, 0 <= ppm <= s, 0 <= rw, s == 1_000_000;
    assert(spec_miner_reward(hashpower, total_hashpower, rewards) == earned);
    assert((earned + 1) * s * t + t * rw > h * s * rw) by (nonlinear_arith)
        requires (earned + 1) * s > ppm * rw, ppm * t > h * s - t, s > 0, t > 0, rw >= 0, earned >= 0, ppm >= 0;
    if h == t {
        assert(ppm == s) by (nonlinear_arith)
            requires ppm == (h * s) / t, h == t, t > 0;
        assert(earned == rw) by (nonlinear_arith)
            requires earned == (ppm * rw) / s, ppm == s, s > 0;
    }
}

/// Sum of a list of hashpowers.
pub open spec fn sum_u64(hs: Seq<u64>) -> nat
    decreases hs.len(),
{
    if hs.len() == 0 {
        0
    } else {
        sum_u64(hs.drop_last()) + (hs.last() as nat)
    }
}

/// Sum of the rewards of miners with the given hashpowers.
pub open spec fn sum_rewards(hs: Seq<u64>, total_hashpower: u64, rewards: u64) -> nat
    decreases hs.len(),
{
    if hs.len() == 0 {
        0
    } else {
        sum_rewards(hs.drop_last(), total_hashpower, rewards)
            + (spec_miner_reward(hs.last(), total_hashpower, rewards) as nat)
    }
}

proof fn lemma_sum_rewards_scaled(hs: Seq<u64>, total_hashpower: u64, rewards: u64)
    requires
        0 < total_hashpower,
        sum_u64(hs) <= total_hashpower,
    ensures
        sum_rewards(hs, total_hashpower, rewards) * total_hashpower <= sum_u64(hs) * rewards,
    decreases hs.len(),
{
    if hs.len() > 0 {
        let init = hs.drop_last();
        lemma_sum_rewards_scaled(init, total_hashpower, rewards);
        lemma_reward_at_most_proportion(hs.last(), total_hashpower, rewards);
        let a = sum_rewards(init, total_hashpower, rewards) as int;
        let b = spec_miner_reward(hs.last(), total_hashpower, rewards) as int;
        let x = sum_u64(init) as int;
        let y = hs.last() as int;
        let t = total_hashpower as int;
        let r = rewards as int;
        assert((a + b) * t <= (x + y) * r) by (nonlinear_arith)
            requires a * t <= x * r, b * t <= y * r;
        assert(sum_rewards(hs, total_hashpower, rewards) == a + b);
        assert(sum_u64(hs) == x + y);
    } else {
        assert(sum_rewards(hs, total_hashpower, rewards) == 0);
        assert(sum_u64(hs) == 0);
        assert(0 * (total_hashpower as int) == 0);
        assert(0 * (rewards as int) == 0);
    }
}

/// Sharing never pays out more than the pool earned: when the total is the sum
/// of the miners' hashpowers, their rewards add up to at most `rewards`.
pub proof fn lemma_rewards_within_pool(hs: Seq<u64>, rewards: u64)
    requires
        0 < sum_u64(hs) <= u64::MAX,
    ensures
        sum_rewards(hs, sum_u64(hs) as u64, rewards) <= rewards,
{
    let t = sum_u64(hs) as u64;
    lemma_sum_rewards_scaled(hs, t, rewards);
    let a = sum_rewards(hs, t, rewards) as int;
    let ti = t as int;
    let r = rewards as int;
    assert(a <= r) by (nonlinear_arith)
        requires a * ti <= ti * r, ti > 0;
}

/// The hashpowers of the submissions of an epoch, in order.
pub open spec fn entry_hashpowers(entries: Seq<([u8; 32], (u32, u64))>) -> Seq<u64> {
    entries.map_values(|e: ([u8; 32], (u32, u64))| e.1.1)
}

/// The submission sums agree whether read from the entries or from their hashpowers.
pub proof fn lemma_entry_hashpowers_sum(entries: Seq<([u8; 32], (u32, u64))>)
    ensures
        sum_u64(entry_hashpowers(entries)) == sum_hashpower(entries),
    decreases entries.len(),
{
    if entries.len() > 0 {
        assert(entry_hashpowers(entries).drop_last() =~= entry_hashpowers(entries.drop_last()));
        lemma_entry_hashpowers_sum(entries.drop_last());
    }
}

/// Within an epoch, the rewards of all miners that submitted add up to at most
/// what the pool earned.
pub proof fn lemma_epoch_rewards_within_pool(epoch: EpochHashes, rewards: u64)
    requires
        epoch.wf(),
        0 < sum_hashpower(epoch.submissions.entries()) <= u64::MAX,
    ensures
        sum_rewards(entry_hashpowers(epoch.submissions.entries()),
            sum_hashpower(epoch.submissions.entries()) as u64, rewards) <= rewards,
{
    lemma_entry_hashpowers_sum(epoch.submissions.entries());
    lemma_rewards_within_pool(entry_hashpowers(epoch.submissions.entries()), rewards);
}

impl EpochHashes {
    /// The difficulty `pubkey` submitted in this epoch and the reward it earned out
    /// of `rewards`, or `None` when it submitted nothing.
    pub fn reward_of(&self, pubkey: &[u8; 32], total_hashpower: u64, rewards: u64) -> (r: Option<(u32, u64)>)
        requires
            self.wf(),
            total_hashpower > 0,
        ensures
            match r {
                Some((diff, earned)) => {
                    &&& self.submissions.contains(pubkey@)
                    &&& diff == self.submissions.value_of(pubkey@).0
                    &&& earned == spec_miner_reward(self.submissions.value_of(pubkey@).1, total_hashpower, rewards)
                },
                None => !self.submissions.contains(pubkey@),
            },
    {
        match self.submissions.position(pubkey) {
            Some(i) => {
                let e = self.submissions.entry(i);
                let diff = e.1.0;
                proof {
                    assert(self.submissions.entries()[i as int] == e);
                }
                let hp = hashpower(diff);
                Some((diff, miner_reward(hp, total_hashpower, rewards)))
            },
            None => None,
        }
    }
}

} // verus!
