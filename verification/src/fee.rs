//! The priority fee paid for submitting the pool's best solution.

use vstd::prelude::*;

verus! {

/// Upper bound of a boosted fee when no fee cap is configured (microlamports).
pub const DEFAULT_BOOST_CAP: u64 = 300_000;

/// The difficulty-related settings that decide whether a solution deserves a
/// higher priority fee.
#[derive(Clone, Copy, Debug)]
pub struct DifficultyPayload {
    pub solution_difficulty: u32,
    pub expected_min_difficulty: u32,
    pub extra_fee_difficulty: u32,
    pub extra_fee_percent: u64,
}

/// Where the fee that was paid came from.
#[derive(Clone, Copy, Debug, PartialEq, Eq)]
pub enum FeeSource {
    Static,
    Estimate,
}

/// The largest of a list of fees (0 for none).
pub open spec fn max_fee(fees: Seq<u64>) -> u64
    decreases fees.len(),
{
    if fees.len() == 0 {
        0
    } else {
        let m = max_fee(fees.drop_last());
        if fees.last() > m { fees.last() } else { m }
    }
}

/// The largest fee is at least every fee of the list, and is one of them when
/// the list is not empty.
pub proof fn lemma_max_fee(fees: Seq<u64>)
    ensures
        forall|i: int| 0 <= i < fees.len() ==> #[trigger] fees[i] <= max_fee(fees),
        fees.len() > 0 ==> exists|i: int| 0 <= i < fees.len() && #[trigger] fees[i] == max_fee(fees),
    decreases fees.len(),
{
    if fees.len() > 0 {
        let init = fees.drop_last();
        lemma_max_fee(init);
        assert forall|i: int| 0 <= i < fees.len() implies #[trigger] fees[i] <= max_fee(fees) by {
            if i < init.len() {
                assert(fees[i] == init[i]);
            }
        }
        if fees.last() <= max_fee(init) && init.len() > 0 {
            let j = choose|j: int| 0 <= j < init.len() && #[trigger] init[j] == max_fee(init);
            assert(fees[j] == init[j]);
        } else {
            assert(fees[fees.len() - 1] == max_fee(fees));
        }
    }
}

/// A fee estimate from the prioritization fees recently paid: the highest of
/// them, at most `cap` when there is one; `None` when no fee was reported.
pub fn estimate_from_recent_fees(recent: &Vec<u64>, cap: Option<u64>) -> (r: Option<u64>)
    ensures
        recent@.len() == 0 ==> r is None,
        recent@.len() > 0 ==> r == Some(match cap {
            Some(c) => if max_fee(recent@) < c { max_fee(recent@) } else { c },
            None => max_fee(recent@),
        }),
{
    if recent.len() == 0 {
        return None;
    }
    let mut m: u64 = 0;
    let mut i: usize = 0;
    while i < recent.len()
        invariant
            0 <= i <= recent@.len(),
            m == max_fee(recent@.take(i as int)),
        decreases recent@.len() - i,
    {
        proof {
            assert(recent@.take(i + 1).drop_last() =~= recent@.take(i as int));
        }
        if recent[i] > m {
            m = recent[i];
        }
        i = i + 1;
    }
    assert(recent@.take(recent@.len() as int) =~= recent@);
    match cap {
        Some(c) => Some(if m < c { m } else { c }),
        None => Some(m),
    }
}

/// `x` clamped to the largest `u64`.
pub open spec fn saturate_u64(x: int) -> int {
    if x > u64::MAX {
        u64::MAX as int
    } else {
        x
    }
}

/// `fee` raised by `extra_percent` percent (saturating, rounded down), but at most
/// `cap`, or at most `DEFAULT_BOOST_CAP` when there is no cap.
pub open spec fn spec_boosted_fee(fee: u64, extra_percent: u64, cap: Option<u64>) -> u64 {
    let raised = saturate_u64(fee * saturate_u64(100 + extra_percent)) / 100;
    let limit = match cap {
        Some(c) => c as int,
        None => DEFAULT_BOOST_CAP as int,
    };
    (if raised < limit { raised } else { limit }) as u64
}

/// A boosted fee is the fee raised by `extra_percent` percent, rounded down, or
/// the cap (300_000 without one) when that is lower; it is never below the
/// original fee unless the cap is.
pub proof fn lemma_boosted_fee(fee: u64, extra_percent: u64, cap: Option<u64>)
    requires
        fee * (100 + extra_percent) <= u64::MAX,
    ensures
        ({
            let limit: int = match cap {
                Some(c) => c as int,
                None => 300_000,
            };
            let r = spec_boosted_fee(fee, extra_percent, cap) as int;
            &&& r <= limit
            &&& (r == limit || (r * 100 <= fee * (100 + extra_percent) < r * 100 + 100))
            &&& (r < limit ==> r * 100 <= fee * (100 + extra_percent) < r * 100 + 100)
            &&& (fee <= limit ==> r >= fee)
        }),
{
    let x = fee * (100 + extra_percent);
    assert(x >= fee * 100) by (nonlinear_arith)
        requires x == fee * (100 + extra_percent), fee >= 0, extra_percent >= 0;
    if 100 + extra_percent > u64::MAX {
        assert(fee == 0) by (nonlinear_arith)
            requires fee * (100 + extra_percent) <= u64::MAX, 100 + extra_percent > u64::MAX, fee >= 0;
    }
}

fn saturating_mul_u64(a: u64, b: u64) -> (r: u64)
    ensures
        r == saturate_u64(a * b),
{
    match a.checked_mul(b) {
        Some(x) => x,
        None => u64::MAX,
    }
}

/// Raises `fee` by `extra_percent` percent, never above the cap.
pub fn boosted_fee(fee: u64, extra_percent: u64, cap: Option<u64>) -> (r: u64)
    ensures
        r == spec_boosted_fee(fee, extra_percent, cap),
        r <= (match cap {
            Some(c) => c,
            None => DEFAULT_BOOST_CAP,
        }),
{
    let factor = 100u64.saturating_add(extra_percent);
    let raised = saturating_mul_u64(fee, factor) / 100;
    let limit = match cap {
        Some(c) => c,
        None => DEFAULT_BOOST_CAP,
    };
    if raised < limit {
        raised
    } else {
        limit
    }
}

impl DifficultyPayload {
    /// The fee to pay given a network fee estimate: boosted when the solution is
    /// harder than the extra-fee difficulty, the estimate otherwise.
    pub fn fee_for_estimate(&self, estimate: u64, cap: Option<u64>) -> (r: u64)
        ensures
            r == (if self.solution_difficulty > self.extra_fee_difficulty {
                spec_boosted_fee(estimate, self.extra_fee_percent, cap)
            } else {
                estimate
            }),
    {
        if self.solution_difficulty > self.extra_fee_difficulty {
            boosted_fee(estimate, self.extra_fee_percent, cap)
        } else {
            estimate
        }
    }
}

/// The priority fee for a submission. With dynamic fees enabled, a successful
/// `estimate` is used (boosted for hard solutions) and a failed one falls back to
/// the static fee; with dynamic fees off the static fee is used. A missing static
/// fee counts as 0.
pub fn choose_priority_fee(
    dynamic_enabled: bool,
    estimate: Option<u64>,
    static_fee: Option<u64>,
    cap: Option<u64>,
    payload: &DifficultyPayload,
) -> (r: (u64, FeeSource))
    ensures
        r.1 == (if dynamic_enabled { FeeSource::Estimate } else { FeeSource::Static }),
        r.0 == (if dynamic_enabled && estimate is Some {
            if payload.solution_difficulty > payload.extra_fee_difficulty {
                spec_boosted_fee(estimate->0, payload.extra_fee_percent, cap)
            } else {
                estimate->0
            }
        } else {
            match static_fee {
                Some(f) => f,
                None => 0,
            }
        }),
{
    let fallback = match static_fee {
        Some(f) => f,
        None => 0,
    };
    if dynamic_enabled {
        match estimate {
            Some(e) => (payload.fee_for_estimate(e, cap), FeeSource::Estimate),
            None => (fallback, FeeSource::Estimate),
        }
    } else {
        (fallback, FeeSource::Static)
    }
}

} // verus!
