use ore_hq_server::pool_proof::{
    adopt_decoded, apply_proof_notification, challenge_changed, decode_bus_account, decode_proof_account, ProofAccount,
};

fn empty_proof() -> ProofAccount {
    ProofAccount {
        authority: [0; 32],
        balance: 0,
        challenge: [0; 32],
        last_hash: [0; 32],
        last_hash_at: 0,
        last_stake_at: 0,
        miner: [0; 32],
        total_hashes: 0,
        total_rewards: 0,
    }
}

fn account_bytes(disc: u8) -> Vec<u8> {
    let mut d = vec![disc, 0, 0, 0, 0, 0, 0, 0];
    d.extend_from_slice(&[1u8; 32]); // authority
    d.extend_from_slice(&77u64.to_le_bytes()); // balance
    d.extend_from_slice(&[2u8; 32]); // challenge
    d.extend_from_slice(&[3u8; 32]); // last hash
    d.extend_from_slice(&1_700_000_000i64.to_le_bytes()); // last hash at
    d.extend_from_slice(&0i64.to_le_bytes()); // last stake at
    d.extend_from_slice(&[4u8; 32]); // miner
    d.extend_from_slice(&9u64.to_le_bytes()); // total hashes
    d.extend_from_slice(&5u64.to_le_bytes()); // total rewards
    d
}

#[test]
fn notification_updates_proof() {
    let mut p = empty_proof();
    let data = account_bytes(102);
    assert_eq!(data.len(), 176);
    let adopted = apply_proof_notification(&mut p, Some(data)).unwrap();
    assert_eq!(adopted.balance, p.balance);
    assert_eq!(adopted.total_hashes, 9);
    assert_eq!(p.total_rewards, 5);
    assert_eq!(p.authority, [1u8; 32]);
    assert_eq!(p.balance, 77);
    assert_eq!(p.challenge, [2u8; 32]);
    assert_eq!(p.last_hash_at, 1_700_000_000);
    assert_eq!(p.miner, [4u8; 32]);
    assert!(challenge_changed(&empty_proof(), &p));
    assert!(!challenge_changed(&p, &p));
}

#[test]
fn foreign_or_missing_data_keeps_proof() {
    let mut p = empty_proof();
    assert!(apply_proof_notification(&mut p, Some(account_bytes(100))).is_none());
    assert!(apply_proof_notification(&mut p, None).is_none());
    let mut short = account_bytes(102);
    short.truncate(100);
    assert!(apply_proof_notification(&mut p, Some(short)).is_none());
    assert_eq!(p.challenge, [0u8; 32]);
}

#[test]
fn decoders() {
    let p = decode_proof_account(&account_bytes(102)).unwrap();
    assert_eq!(p.last_hash, [3u8; 32]);
    assert!(decode_proof_account(&account_bytes(7)).is_none());
    let mut bus = vec![100u8, 0, 0, 0, 0, 0, 0, 0];
    for v in [3u64, 1_000, 2_000, 50] {
        bus.extend_from_slice(&v.to_le_bytes());
    }
    let b = decode_bus_account(&bus).unwrap();
    assert_eq!((b.id, b.rewards, b.theoretical_rewards, b.top_balance), (3, 1_000, 2_000, 50));
    assert!(decode_bus_account(&account_bytes(102)).is_none());
}

#[test]
fn tracked_proof_is_last_decoded_notification() {
    let mut p = empty_proof();
    let first = account_bytes(102);
    let mut second = account_bytes(102);
    second[40..48].copy_from_slice(&500u64.to_le_bytes()); // balance
    second[48..80].copy_from_slice(&[8u8; 32]); // challenge
    assert!(apply_proof_notification(&mut p, Some(first)).is_some());
    assert_eq!(p.balance, 77);
    assert!(apply_proof_notification(&mut p, Some(second)).is_some());
    assert!(apply_proof_notification(&mut p, Some(account_bytes(100))).is_none());
    assert!(apply_proof_notification(&mut p, None).is_none());
    assert_eq!(p.balance, 500);
    assert_eq!(p.challenge, [8u8; 32]);
    assert_eq!(p.last_hash_at, 1_700_000_000);
}

#[test]
fn adopting_takes_every_field_of_the_decoded_account() {
    let mut p = empty_proof();
    let mut decoded = empty_proof();
    decoded.balance = 12;
    decoded.last_hash_at = 34;
    decoded.last_stake_at = 56;
    decoded.total_hashes = 78;
    decoded.total_rewards = 90;
    decoded.challenge = [6u8; 32];
    let adopted = adopt_decoded(&mut p, Some(decoded)).unwrap();
    assert_eq!(
        (adopted.balance, adopted.last_hash_at, adopted.last_stake_at, adopted.total_hashes, adopted.total_rewards),
        (12, 34, 56, 78, 90)
    );
    assert_eq!(
        (p.balance, p.last_hash_at, p.last_stake_at, p.total_hashes, p.total_rewards, p.challenge),
        (12, 34, 56, 78, 90, [6u8; 32])
    );
    assert!(adopt_decoded(&mut p, None).is_none());
    assert_eq!((p.balance, p.total_rewards), (12, 90));
}
