//! The SQL statements the pool's database layer runs, with the values bound to
//! their placeholders in order.

use vstd::prelude::*;

verus! {

/// A value bound to a statement's placeholder, with its SQL type.
#[derive(Debug, PartialEq)]
pub enum SqlValue {
    Integer(i32),
    BigInt(i64),
    SmallInt(i16),
    Text(String),
    Binary(Vec<u8>),
    Bool(bool),
    NullableInteger(Option<i32>),
    NullableBigInt(Option<i64>),
}

/// A statement and the values bound to its placeholders, in order.
#[derive(Debug)]
pub struct Statement {
    pub sql: &'static str,
    pub binds: Vec<SqlValue>,
}

/// Reads the challenge row holding `challenge`.
pub fn challenge_by_challenge(challenge: Vec<u8>) -> (r: Statement)
    ensures
        r.sql@ == "SELECT id, pool_id, submission_id, challenge, rewards_earned FROM challenges WHERE challenges.challenge = ?"@,
        r.binds@.len() == 1,
        r.binds@[0] == SqlValue::Binary(challenge),
{
    let mut binds: Vec<SqlValue> = Vec::new();
    binds.push(SqlValue::Binary(challenge));
    Statement { sql: "SELECT id, pool_id, submission_id, challenge, rewards_earned FROM challenges WHERE challenges.challenge = ?", binds }
}

/// Reads the reward balance of the miner with key text `miner_pubkey`.
pub fn miner_rewards(miner_pubkey: String) -> (r: Statement)
    ensures
        r.sql@ == "SELECT r.balance, r.miner_id FROM miners m JOIN rewards r ON m.id = r.miner_id WHERE m.pubkey = ?"@,
        r.binds@.len() == 1,
        r.binds@[0] == SqlValue::Text(miner_pubkey),
{
    let mut binds: Vec<SqlValue> = Vec::new();
    binds.push(SqlValue::Text(miner_pubkey));
    Statement { sql: "SELECT r.balance, r.miner_id FROM miners m JOIN rewards r ON m.id = r.miner_id WHERE m.pubkey = ?", binds }
}

/// Opens a reward balance for a miner in a pool.
pub fn add_reward(miner_id: i32, pool_id: i32) -> (r: Statement)
    ensures
        r.sql@ == "INSERT INTO rewards (miner_id, pool_id) VALUES (?, ?)"@,
        r.binds@.len() == 2,
        r.binds@[0] == SqlValue::Integer(miner_id),
        r.binds@[1] == SqlValue::Integer(pool_id),
{
    let mut binds: Vec<SqlValue> = Vec::new();
    binds.push(SqlValue::Integer(miner_id));
    binds.push(SqlValue::Integer(pool_id));
    Statement { sql: "INSERT INTO rewards (miner_id, pool_id) VALUES (?, ?)", binds }
}

/// Takes `amount` off a miner's reward balance (the amount as a signed 64-bit value).
pub fn decrease_miner_reward(miner_id: i32, amount: u64) -> (r: Statement)
    ensures
        r.sql@ == "UPDATE rewards SET balance = balance - ? WHERE miner_id = ?"@,
        r.binds@.len() == 2,
        r.binds@[0] == SqlValue::BigInt(amount as i64),
        r.binds@[1] == SqlValue::Integer(miner_id),
{
    let mut binds: Vec<SqlValue> = Vec::new();
    binds.push(SqlValue::BigInt(amount as i64));
    binds.push(SqlValue::Integer(miner_id));
    Statement { sql: "UPDATE rewards SET balance = balance - ? WHERE miner_id = ?", binds }
}

/// Records a miner's submission for a challenge.
pub fn add_submission(miner_id: i32, challenge_id: i32, nonce: i64, difficulty: i16) -> (r: Statement)
    ensures
        r.sql@ == "INSERT INTO submissions (miner_id, challenge_id, nonce, difficulty) VALUES (?, ?, ?, ?)"@,
        r.binds@.len() == 4,
        r.binds@[0] == SqlValue::Integer(miner_id),
        r.binds@[1] == SqlValue::Integer(challenge_id),
        r.binds@[2] == SqlValue::BigInt(nonce),
        r.binds@[3] == SqlValue::SmallInt(difficulty),
{
    let mut binds: Vec<SqlValue> = Vec::new();
    binds.push(SqlValue::Integer(miner_id));
    binds.push(SqlValue::Integer(challenge_id));
    binds.push(SqlValue::BigInt(nonce));
    binds.push(SqlValue::SmallInt(difficulty));
    Statement { sql: "INSERT INTO submissions (miner_id, challenge_id, nonce, difficulty) VALUES (?, ?, ?, ?)", binds }
}

/// Reads the id of the latest submission with `nonce` (as a signed 64-bit value).
pub fn submission_id_with_nonce(nonce: u64) -> (r: Statement)
    ensures
        r.sql@ == "SELECT id FROM submissions WHERE submissions.nonce = ? ORDER BY id DESC"@,
        r.binds@.len() == 1,
        r.binds@[0] == SqlValue::BigInt(nonce as i64),
{
    let mut binds: Vec<SqlValue> = Vec::new();
    binds.push(SqlValue::BigInt(nonce as i64));
    Statement { sql: "SELECT id FROM submissions WHERE submissions.nonce = ? ORDER BY id DESC", binds }
}

/// Sets the rewards earned and the winning submission of the challenge `challenge`.
pub fn update_challenge_rewards(challenge: Vec<u8>, submission_id: i32, rewards: u64) -> (r: Statement)
    ensures
        r.sql@ == "UPDATE challenges SET rewards_earned = ?, submission_id = ? WHERE challenge = ?"@,
        r.binds@.len() == 3,
        r.binds@[0] == SqlValue::NullableBigInt(Some(rewards as i64)),
        r.binds@[1] == SqlValue::NullableInteger(Some(submission_id)),
        r.binds@[2] == SqlValue::Binary(challenge),
{
    let mut binds: Vec<SqlValue> = Vec::new();
    binds.push(SqlValue::NullableBigInt(Some(rewards as i64)));
    binds.push(SqlValue::NullableInteger(Some(submission_id)));
    binds.push(SqlValue::Binary(challenge));
    Statement { sql: "UPDATE challenges SET rewards_earned = ?, submission_id = ? WHERE challenge = ?", binds }
}

/// Records a new challenge of a pool.
pub fn add_challenge(pool_id: i32, challenge: Vec<u8>, rewards_earned: Option<i64>) -> (r: Statement)
    ensures
        r.sql@ == "INSERT INTO challenges (pool_id, challenge, rewards_earned) VALUES (?, ?, ?)"@,
        r.binds@.len() == 3,
        r.binds@[0] == SqlValue::Integer(pool_id),
        r.binds@[1] == SqlValue::Binary(challenge),
        r.binds@[2] == SqlValue::NullableBigInt(rewards_earned),
{
    let mut binds: Vec<SqlValue> = Vec::new();
    binds.push(SqlValue::Integer(pool_id));
    binds.push(SqlValue::Binary(challenge));
    binds.push(SqlValue::NullableBigInt(rewards_earned));
    Statement { sql: "INSERT INTO challenges (pool_id, challenge, rewards_earned) VALUES (?, ?, ?)", binds }
}

/// Reads the pool whose authority has key text `pool_pubkey`.
pub fn pool_by_authority_pubkey(pool_pubkey: String) -> (r: Statement)
    ensures
        r.sql@ == "SELECT id, proof_pubkey, authority_pubkey, total_rewards, claimed_rewards FROM pools WHERE pools.authority_pubkey = ?"@,
        r.binds@.len() == 1,
        r.binds@[0] == SqlValue::Text(pool_pubkey),
{
    let mut binds: Vec<SqlValue> = Vec::new();
    binds.push(SqlValue::Text(pool_pubkey));
    Statement { sql: "SELECT id, proof_pubkey, authority_pubkey, total_rewards, claimed_rewards FROM pools WHERE pools.authority_pubkey = ?", binds }
}

/// Records a pool with its authority and proof keys.
pub fn add_pool(authority_pubkey: String, proof_pubkey: String) -> (r: Statement)
    ensures
        r.sql@ == "INSERT INTO pools (authority_pubkey, proof_pubkey) VALUES (?, ?)"@,
        r.binds@.len() == 2,
        r.binds@[0] == SqlValue::Text(authority_pubkey),
        r.binds@[1] == SqlValue::Text(proof_pubkey),
{
    let mut binds: Vec<SqlValue> = Vec::new();
    binds.push(SqlValue::Text(authority_pubkey));
    binds.push(SqlValue::Text(proof_pubkey));
    Statement { sql: "INSERT INTO pools (authority_pubkey, proof_pubkey) VALUES (?, ?)", binds }
}

/// Adds `earned_rewards` to a pool's total rewards.
pub fn update_pool_rewards(pool_authority_pubkey: String, earned_rewards: u64) -> (r: Statement)
    ensures
        r.sql@ == "UPDATE pools SET total_rewards = total_rewards + ? WHERE authority_pubkey = ?"@,
        r.binds@.len() == 2,
        r.binds@[0] == SqlValue::BigInt(earned_rewards as i64),
        r.binds@[1] == SqlValue::Text(pool_authority_pubkey),
{
    let mut binds: Vec<SqlValue> = Vec::new();
    binds.push(SqlValue::BigInt(earned_rewards as i64));
    binds.push(SqlValue::Text(pool_authority_pubkey));
    Statement { sql: "UPDATE pools SET total_rewards = total_rewards + ? WHERE authority_pubkey = ?", binds }
}

/// Adds `claimed_rewards` to a pool's claimed rewards.
pub fn update_pool_claimed(pool_authority_pubkey: String, claimed_rewards: u64) -> (r: Statement)
    ensures
        r.sql@ == "UPDATE pools SET claimed_rewards = claimed_rewards + ? WHERE authority_pubkey = ?"@,
        r.binds@.len() == 2,
        r.binds@[0] == SqlValue::BigInt(claimed_rewards as i64),
        r.binds@[1] == SqlValue::Text(pool_authority_pubkey),
{
    let mut binds: Vec<SqlValue> = Vec::new();
    binds.push(SqlValue::BigInt(claimed_rewards as i64));
    binds.push(SqlValue::Text(pool_authority_pubkey));
    Statement { sql: "UPDATE pools SET claimed_rewards = claimed_rewards + ? WHERE authority_pubkey = ?", binds }
}

/// Records a miner by key text.
pub fn add_miner(miner_pubkey: String, is_enabled: bool) -> (r: Statement)
    ensures
        r.sql@ == "INSERT INTO miners (pubkey, enabled) VALUES (?, ?)"@,
        r.binds@.len() == 2,
        r.binds@[0] == SqlValue::Text(miner_pubkey),
        r.binds@[1] == SqlValue::Bool(is_enabled),
{
    let mut binds: Vec<SqlValue> = Vec::new();
    binds.push(SqlValue::Text(miner_pubkey));
    binds.push(SqlValue::Bool(is_enabled));
    Statement { sql: "INSERT INTO miners (pubkey, enabled) VALUES (?, ?)", binds }
}

/// Reads the miner with key text `miner_pubkey`.
pub fn miner_by_pubkey(miner_pubkey: String) -> (r: Statement)
    ensures
        r.sql@ == "SELECT id, pubkey, enabled FROM miners WHERE miners.pubkey = ?"@,
        r.binds@.len() == 1,
        r.binds@[0] == SqlValue::Text(miner_pubkey),
{
    let mut binds: Vec<SqlValue> = Vec::new();
    binds.push(SqlValue::Text(miner_pubkey));
    Statement { sql: "SELECT id, pubkey, enabled FROM miners WHERE miners.pubkey = ?", binds }
}

/// Records a claim paid out to a miner.
pub fn add_claim(miner_id: i32, pool_id: i32, transaction_id: i32, amount: i64) -> (r: Statement)
    ensures
        r.sql@ == "INSERT INTO claims (miner_id, pool_id, transaction_id, amount) VALUES (?, ?, ?, ?)"@,
        r.binds@.len() == 4,
        r.binds@[0] == SqlValue::Integer(miner_id),
        r.binds@[1] == SqlValue::Integer(pool_id),
        r.binds@[2] == SqlValue::Integer(transaction_id),
        r.binds@[3] == SqlValue::BigInt(amount),
{
    let mut binds: Vec<SqlValue> = Vec::new();
    binds.push(SqlValue::Integer(miner_id));
    binds.push(SqlValue::Integer(pool_id));
    binds.push(SqlValue::Integer(transaction_id));
    binds.push(SqlValue::BigInt(amount));
    Statement { sql: "INSERT INTO claims (miner_id, pool_id, transaction_id, amount) VALUES (?, ?, ?, ?)", binds }
}

/// Reads the time of a miner's latest claim.
pub fn last_claim(miner_id: i32) -> (r: Statement)
    ensures
        r.sql@ == "SELECT created FROM claims WHERE miner_id = ? ORDER BY id DESC"@,
        r.binds@.len() == 1,
        r.binds@[0] == SqlValue::Integer(miner_id),
{
    let mut binds: Vec<SqlValue> = Vec::new();
    binds.push(SqlValue::Integer(miner_id));
    Statement { sql: "SELECT created FROM claims WHERE miner_id = ? ORDER BY id DESC", binds }
}

/// Records a transaction sent by the pool.
pub fn add_transaction(transaction_type: String, signature: String, priority_fee: i32) -> (r: Statement)
    ensures
        r.sql@ == "INSERT INTO transactions (transaction_type, signature, priority_fee) VALUES (?, ?, ?)"@,
        r.binds@.len() == 3,
        r.binds@[0] == SqlValue::Text(transaction_type),
        r.binds@[1] == SqlValue::Text(signature),
        r.binds@[2] == SqlValue::Integer(priority_fee),
{
    let mut binds: Vec<SqlValue> = Vec::new();
    binds.push(SqlValue::Text(transaction_type));
    binds.push(SqlValue::Text(signature));
    binds.push(SqlValue::Integer(priority_fee));
    Statement { sql: "INSERT INTO transactions (transaction_type, signature, priority_fee) VALUES (?, ?, ?)", binds }
}

/// Reads the id of the transaction with signature text `sig`.
pub fn transaction_by_signature(sig: String) -> (r: Statement)
    ensures
        r.sql@ == "SELECT id FROM transactions WHERE signature = ?"@,
        r.binds@.len() == 1,
        r.binds@[0] == SqlValue::Text(sig),
{
    let mut binds: Vec<SqlValue> = Vec::new();
    binds.push(SqlValue::Text(sig));
    Statement { sql: "SELECT id FROM transactions WHERE signature = ?", binds }
}

/// Reads a miner's latest 100 submissions, newest first.
pub fn miner_submissions(pubkey: String) -> (r: Statement)
    ensures
        r.sql@ == "SELECT s.* FROM submissions s JOIN miners m ON s.miner_id = m.id WHERE m.pubkey = ? ORDER BY s.created DESC LIMIT 100"@,
        r.binds@.len() == 1,
        r.binds@[0] == SqlValue::Text(pubkey),
{
    let mut binds: Vec<SqlValue> = Vec::new();
    binds.push(SqlValue::Text(pubkey));
    Statement { sql: "SELECT s.* FROM submissions s JOIN miners m ON s.miner_id = m.id WHERE m.pubkey = ? ORDER BY s.created DESC LIMIT 100", binds }
}

/// Reads the submissions, with miner keys, for the challenge before the newest one.
pub fn last_challenge_submissions() -> (r: Statement)
    ensures
        r.sql@ == "SELECT s.*, m.pubkey FROM submissions s JOIN miners m ON s.miner_id = m.id JOIN challenges c ON s.challenge_id = c.id WHERE c.id = (SELECT id from challenges ORDER BY created DESC LIMIT 1 OFFSET 1)"@,
        r.binds@.len() == 0,
{
    let mut binds: Vec<SqlValue> = Vec::new();
    Statement { sql: "SELECT s.*, m.pubkey FROM submissions s JOIN miners m ON s.miner_id = m.id JOIN challenges c ON s.challenge_id = c.id WHERE c.id = (SELECT id from challenges ORDER BY created DESC LIMIT 1 OFFSET 1)", binds }
}

/// Reads the latest 1440 challenges that have a winning submission, with its difficulty.
pub fn challenges_with_difficulty() -> (r: Statement)
    ensures
        r.sql@ == "SELECT c.id, c.rewards_earned, c.updated, s.difficulty FROM challenges c JOIN submissions s ON c.submission_id = s.id WHERE c.submission_id IS NOT NULL ORDER BY c.id  DESC LIMIT 1440"@,
        r.binds@.len() == 0,
{
    let mut binds: Vec<SqlValue> = Vec::new();
    Statement { sql: "SELECT c.id, c.rewards_earned, c.updated, s.difficulty FROM challenges c JOIN submissions s ON c.submission_id = s.id WHERE c.submission_id IS NOT NULL ORDER BY c.id  DESC LIMIT 1440", binds }
}

/// Reads the pool's latest mining transaction.
pub fn latest_mine_transaction() -> (r: Statement)
    ensures
        r.sql@ == "SELECT * FROM transactions WHERE transaction_type = ? ORDER BY id DESC LIMIT 1"@,
        r.binds@.len() == 1,
        r.binds@[0] matches SqlValue::Text(t) && t@ == "mine"@,
{
    let kind = String::from_str("mine");
    let mut binds: Vec<SqlValue> = Vec::new();
    binds.push(SqlValue::Text(kind));
    Statement { sql: "SELECT * FROM transactions WHERE transaction_type = ? ORDER BY id DESC LIMIT 1", binds }
}

} // verus!
