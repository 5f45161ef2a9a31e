use ore_hq_server::statements::{
    add_challenge, add_claim, add_miner, add_pool, add_reward, add_submission, add_transaction,
    challenge_by_challenge, challenges_with_difficulty, decrease_miner_reward, last_challenge_submissions,
    last_claim, latest_mine_transaction, miner_by_pubkey, miner_rewards, miner_submissions,
    pool_by_authority_pubkey, submission_id_with_nonce, transaction_by_signature, update_challenge_rewards,
    update_pool_claimed, update_pool_rewards, SqlValue,
};

#[test]
fn reading_statements() {
    let s = challenge_by_challenge(vec![1, 2]);
    assert_eq!(s.sql, "SELECT id, pool_id, submission_id, challenge, rewards_earned FROM challenges WHERE challenges.challenge = ?");
    assert_eq!(s.binds, vec![SqlValue::Binary(vec![1, 2])]);
    let s = miner_rewards("abc".to_string());
    assert!(s.sql.ends_with("WHERE m.pubkey = ?"));
    assert_eq!(s.binds, vec![SqlValue::Text("abc".to_string())]);
    assert_eq!(submission_id_with_nonce(u64::MAX).binds, vec![SqlValue::BigInt(-1)]);
    assert_eq!(pool_by_authority_pubkey("p".to_string()).binds, vec![SqlValue::Text("p".to_string())]);
    assert_eq!(miner_by_pubkey("m".to_string()).sql, "SELECT id, pubkey, enabled FROM miners WHERE miners.pubkey = ?");
    assert_eq!(last_claim(4).binds, vec![SqlValue::Integer(4)]);
    assert_eq!(transaction_by_signature("s".to_string()).binds, vec![SqlValue::Text("s".to_string())]);
    assert!(miner_submissions("k".to_string()).sql.ends_with("LIMIT 100"));
    assert!(last_challenge_submissions().binds.is_empty());
    assert!(challenges_with_difficulty().sql.ends_with("LIMIT 1440"));
    let s = latest_mine_transaction();
    assert_eq!(s.binds, vec![SqlValue::Text("mine".to_string())]);
}

#[test]
fn writing_statements() {
    assert_eq!(add_reward(1, 2).binds, vec![SqlValue::Integer(1), SqlValue::Integer(2)]);
    assert_eq!(decrease_miner_reward(3, 10).binds, vec![SqlValue::BigInt(10), SqlValue::Integer(3)]);
    assert_eq!(
        add_submission(1, 2, 3, 4).binds,
        vec![SqlValue::Integer(1), SqlValue::Integer(2), SqlValue::BigInt(3), SqlValue::SmallInt(4)]
    );
    let s = update_challenge_rewards(vec![9], 7, 100);
    assert_eq!(s.sql, "UPDATE challenges SET rewards_earned = ?, submission_id = ? WHERE challenge = ?");
    assert_eq!(
        s.binds,
        vec![SqlValue::NullableBigInt(Some(100)), SqlValue::NullableInteger(Some(7)), SqlValue::Binary(vec![9])]
    );
    assert_eq!(
        add_challenge(1, vec![5], None).binds,
        vec![SqlValue::Integer(1), SqlValue::Binary(vec![5]), SqlValue::NullableBigInt(None)]
    );
    assert_eq!(
        add_pool("a".to_string(), "p".to_string()).binds,
        vec![SqlValue::Text("a".to_string()), SqlValue::Text("p".to_string())]
    );
    assert_eq!(
        update_pool_rewards("a".to_string(), 5).binds,
        vec![SqlValue::BigInt(5), SqlValue::Text("a".to_string())]
    );
    assert_eq!(update_pool_claimed("a".to_string(), 6).sql, "UPDATE pools SET claimed_rewards = claimed_rewards + ? WHERE authority_pubkey = ?");
    assert_eq!(
        add_miner("m".to_string(), true).binds,
        vec![SqlValue::Text("m".to_string()), SqlValue::Bool(true)]
    );
    assert_eq!(
        add_claim(1, 2, 3, 4).binds,
        vec![SqlValue::Integer(1), SqlValue::Integer(2), SqlValue::Integer(3), SqlValue::BigInt(4)]
    );
    assert_eq!(
        add_transaction("mine".to_string(), "sig".to_string(), 20).binds,
        vec![SqlValue::Text("mine".to_string()), SqlValue::Text("sig".to_string()), SqlValue::Integer(20)]
    );
}
