use ore_hq_server::epoch::{hashpower, EpochHashes};
use ore_hq_server::nonce::NonceRange;
use ore_hq_server::rewards::miner_reward;
use ore_hq_server::solution::Solution;

#[test]
fn reward_is_proportional_share() {
    // half the hashpower earns half the rewards
    assert_eq!(miner_reward(10, 20, 1_000), 500);
    // one third: 333333 ppm of 1000 = 333
    assert_eq!(miner_reward(1, 3, 1_000), 333);
    assert_eq!(miner_reward(20, 20, 123_456_789), 123_456_789);
    assert_eq!(miner_reward(0, 20, 1_000), 0);
    // shares below one part per million round to nothing
    assert_eq!(miner_reward(1, 2_000_000, 1_000_000_000), 0);
}

#[test]
fn rewards_never_exceed_pool_earnings() {
    let hs = [hashpower(18), hashpower(20), hashpower(23), hashpower(5)];
    let total: u64 = hs.iter().sum();
    let rewards = 987_654_321u64;
    let paid: u64 = hs.iter().map(|h| miner_reward(*h, total, rewards)).sum();
    assert!(paid <= rewards);
    assert!(paid > rewards - 10_000);
}

#[test]
fn reward_of_looks_up_submission() {
    let mut e = EpochHashes::new();
    let range = Some(NonceRange { start: 0, end: 10 });
    e.apply_judged(range, [1; 32], Solution::new([0; 16], [0; 8]), true, 20, 5);
    e.apply_judged(range, [2; 32], Solution::new([0; 16], [0; 8]), true, 20, 5);
    let total = e.total_hashpower();
    assert_eq!(e.reward_of(&[1; 32], total, 1_000), Some((20, 500)));
    assert_eq!(e.reward_of(&[3; 32], total, 1_000), None);
}
