use ore_hq_server::fee::{boosted_fee, choose_priority_fee, DifficultyPayload, FeeSource};

fn payload(diff: u32, extra_diff: u32, pct: u64) -> DifficultyPayload {
    DifficultyPayload {
        solution_difficulty: diff,
        expected_min_difficulty: 18,
        extra_fee_difficulty: extra_diff,
        extra_fee_percent: pct,
    }
}

#[test]
fn boost_raises_by_percent_up_to_cap() {
    assert_eq!(boosted_fee(10_000, 50, Some(500_000)), 15_000);
    assert_eq!(boosted_fee(400_000, 50, Some(500_000)), 500_000);
    assert_eq!(boosted_fee(250_000, 50, None), 300_000);
    assert_eq!(boosted_fee(10_000, 0, None), 10_000);
    // saturating arithmetic never wraps around
    assert_eq!(boosted_fee(u64::MAX, u64::MAX, Some(7)), 7);
}

#[test]
fn estimate_boosted_only_for_hard_solutions() {
    let hard = payload(30, 27, 20);
    let easy = payload(27, 27, 20);
    assert_eq!(hard.fee_for_estimate(1_000, Some(500_000)), 1_200);
    assert_eq!(easy.fee_for_estimate(1_000, Some(500_000)), 1_000);
}

#[test]
fn fee_selection() {
    let p = payload(30, 27, 100);
    assert_eq!(choose_priority_fee(true, Some(1_000), Some(20_000), Some(500_000), &p), (2_000, FeeSource::Estimate));
    assert_eq!(choose_priority_fee(true, None, Some(20_000), Some(500_000), &p), (20_000, FeeSource::Estimate));
    assert_eq!(choose_priority_fee(true, None, None, Some(500_000), &p), (0, FeeSource::Estimate));
    assert_eq!(choose_priority_fee(false, Some(1_000), Some(20_000), Some(500_000), &p), (20_000, FeeSource::Static));
    assert_eq!(choose_priority_fee(false, Some(1_000), None, None, &p), (0, FeeSource::Static));
}

#[test]
fn recent_fee_estimate() {
    use_estimate();
}

fn use_estimate() {
    let e = ore_hq_server::fee::estimate_from_recent_fees;
    assert_eq!(e(&vec![10, 700, 30], None), Some(700));
    assert_eq!(e(&vec![10, 700, 30], Some(500)), Some(500));
    assert_eq!(e(&vec![10, 20], Some(500)), Some(20));
    assert_eq!(e(&vec![], Some(500)), None);
}
