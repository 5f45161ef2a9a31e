use ore_hq_server::epoch::{hashpower, EpochHashes, SolutionVerdict};
use ore_hq_server::keyed::PubkeyMap;
use ore_hq_server::nonce::NonceRange;
use ore_hq_server::solution::Solution;

fn sol(nonce: u64) -> Solution {
    Solution::new([1u8; 16], nonce.to_le_bytes())
}

#[test]
fn hashpower_doubles_per_bit() {
    assert_eq!(hashpower(5), 5);
    assert_eq!(hashpower(6), 10);
    assert_eq!(hashpower(18), 5 * 8192);
    assert_eq!(hashpower(66), 5 * (1u64 << 61));
}

#[test]
fn nonce_is_little_endian() {
    assert_eq!(sol(0x0102030405060708).nonce(), 0x0102030405060708);
}

#[test]
fn verdicts_before_acceptance() {
    let mut e = EpochHashes::new();
    let key = [1u8; 32];
    let range = NonceRange { start: 10, end: 20 };
    assert_eq!(e.apply_judged(None, key, sol(15), true, 20, 18), SolutionVerdict::NoNonceRange);
    assert_eq!(e.apply_judged(Some(range), key, sol(20), true, 20, 18), SolutionVerdict::NonceOutOfRange);
    assert_eq!(e.apply_judged(Some(range), key, sol(9), true, 20, 18), SolutionVerdict::NonceOutOfRange);
    assert_eq!(e.apply_judged(Some(range), key, sol(15), false, 20, 18), SolutionVerdict::Invalid);
    assert_eq!(
        e.apply_judged(Some(range), key, sol(15), true, 17, 18),
        SolutionVerdict::TooEasy { difficulty: 17 }
    );
    assert_eq!(e.submissions.len(), 0);
    assert!(e.best_hash.solution.is_none());
    assert_eq!(e.best_hash.difficulty, 0);
}

#[test]
fn accepted_solutions_and_best_hash() {
    let mut e = EpochHashes::new();
    let a = [1u8; 32];
    let b = [2u8; 32];
    let range = NonceRange { start: 0, end: 100 };
    assert_eq!(
        e.apply_judged(Some(range), a, sol(1), true, 20, 18),
        SolutionVerdict::Accepted { difficulty: 20, hashpower: hashpower(20), new_best: true }
    );
    assert_eq!(
        e.apply_judged(Some(range), b, sol(2), true, 19, 18),
        SolutionVerdict::Accepted { difficulty: 19, hashpower: hashpower(19), new_best: false }
    );
    assert_eq!(e.best_hash.difficulty, 20);
    assert_eq!(e.best_hash.solution.unwrap().n, 1u64.to_le_bytes());
    // a later, easier submission replaces the miner's entry but not the best hash
    assert_eq!(
        e.apply_judged(Some(range), a, sol(3), true, 18, 18),
        SolutionVerdict::Accepted { difficulty: 18, hashpower: hashpower(18), new_best: false }
    );
    assert_eq!(e.submissions.len(), 2);
    assert_eq!(e.submissions.get(&a), Some((18, hashpower(18))));
    assert_eq!(e.submissions.get(&b), Some((19, hashpower(19))));
    assert_eq!(e.total_hashpower(), hashpower(18) + hashpower(19));
    // equal difficulty does not replace the best hash
    e.apply_judged(Some(range), b, sol(4), true, 20, 18);
    assert_eq!(e.best_hash.solution.unwrap().n, 1u64.to_le_bytes());
    e.apply_judged(Some(range), b, sol(5), true, 21, 18);
    assert_eq!(e.best_hash.difficulty, 21);
    assert_eq!(e.best_hash.solution.unwrap().n, 5u64.to_le_bytes());
    e.reset();
    assert_eq!(e.submissions.len(), 0);
    assert!(e.best_hash.solution.is_none());
    assert_eq!(e.best_hash.difficulty, 0);
    assert_eq!(e.total_hashpower(), 0);
}

fn find_solution(challenge: &[u8; 32], min: u32) -> Solution {
    let mut n = 0u64;
    loop {
        if let Ok(h) = drillx::hash(challenge, &n.to_le_bytes()) {
            if h.difficulty() >= min {
                return Solution::new(h.d, n.to_le_bytes());
            }
        }
        n += 1;
    }
}

#[test]
fn real_solution_is_judged_by_drillx() {
    let challenge = [11u8; 32];
    let s = find_solution(&challenge, 5);
    assert!(s.is_valid(&challenge));
    let d = s.difficulty();
    assert!(d >= 5);
    let key = [8u8; 32];
    let mut ranges = PubkeyMap::new();
    ranges.insert(key, NonceRange { start: 0, end: s.nonce() + 1 });
    let mut e = EpochHashes::new();
    let v = e.apply_solution(&ranges, key, s, &challenge, 5);
    assert_eq!(v, SolutionVerdict::Accepted { difficulty: d, hashpower: hashpower(d), new_best: true });
    assert_eq!(e.best_hash.difficulty, d);
    // the same solution for another challenge is invalid
    let mut e2 = EpochHashes::new();
    assert_eq!(e2.apply_solution(&ranges, key, s, &[12u8; 32], 5), SolutionVerdict::Invalid);
    // a miner without a range is refused
    assert_eq!(e2.apply_solution(&ranges, [9u8; 32], s, &challenge, 5), SolutionVerdict::NoNonceRange);
    // too easy for the pool's minimum
    assert_eq!(
        e2.apply_solution(&ranges, key, s, &challenge, d + 1),
        SolutionVerdict::TooEasy { difficulty: d }
    );
    assert_eq!(e2.submissions.len(), 0);
}

#[test]
fn easy_solution_below_min_diff_is_unscorable() {
    let challenge = [13u8; 32];
    let mut n = 0u64;
    let s = loop {
        if let Ok(h) = drillx::hash(&challenge, &n.to_le_bytes()) {
            if h.difficulty() < 5 {
                break Solution::new(h.d, n.to_le_bytes());
            }
        }
        n += 1;
    };
    let key = [8u8; 32];
    let mut ranges = PubkeyMap::new();
    ranges.insert(key, NonceRange { start: 0, end: u64::MAX });
    let mut e = EpochHashes::new();
    let d = s.difficulty();
    assert_eq!(e.apply_solution(&ranges, key, s, &challenge, 0), SolutionVerdict::Unscorable { difficulty: d });
    assert_eq!(e.submissions.len(), 0);
}

#[test]
fn snapshot_copies_epoch() {
    let mut e = EpochHashes::new();
    let range = Some(NonceRange { start: 0, end: 100 });
    e.apply_judged(range, [1; 32], sol(1), true, 20, 5);
    let s = e.snapshot();
    e.reset();
    assert_eq!(s.submissions.len(), 1);
    assert_eq!(s.submissions.get(&[1; 32]), Some((20, hashpower(20))));
    assert_eq!(s.best_hash.difficulty, 20);
    assert_eq!(e.submissions.len(), 0);
}
