use ore_hq_server::database::{build_rewards_update, settle_query, settle_write, AppDatabaseError, DbOutcome, DbWrite, UpdateReward};

#[test]
fn query_outcomes() {
    assert_eq!(settle_query(DbOutcome::Done(5i32)), Ok(5));
    assert_eq!(settle_query::<i32>(DbOutcome::NoConnection), Err(AppDatabaseError::FailedToGetConnectionFromPool));
    assert_eq!(settle_query::<i32>(DbOutcome::InteractionFailed), Err(AppDatabaseError::InteractionFailed));
    assert_eq!(settle_query::<i32>(DbOutcome::QueryFailed), Err(AppDatabaseError::QueryFailed));
}

#[test]
fn write_outcomes() {
    assert_eq!(settle_write(DbWrite::AddSubmission, DbOutcome::Done(0)), Err(AppDatabaseError::FailedToInsertRow));
    assert_eq!(settle_write(DbWrite::AddSubmission, DbOutcome::Done(2)), Ok(()));
    assert_eq!(settle_write(DbWrite::UpdateChallengeRewards, DbOutcome::Done(0)), Err(AppDatabaseError::FailedToUpdateRow));
    assert_eq!(settle_write(DbWrite::UpdatePoolRewards, DbOutcome::Done(2)), Err(AppDatabaseError::FailedToUpdateRow));
    assert_eq!(settle_write(DbWrite::UpdatePoolClaimed, DbOutcome::Done(1)), Ok(()));
    assert_eq!(settle_write(DbWrite::AddChallenge, DbOutcome::Done(0)), Err(AppDatabaseError::FailedToInsertRow));
    assert_eq!(settle_write(DbWrite::AddPool, DbOutcome::Done(1)), Ok(()));
    assert_eq!(settle_write(DbWrite::AddMiner, DbOutcome::Done(0)), Ok(()));
    assert_eq!(settle_write(DbWrite::AddReward, DbOutcome::NoConnection), Err(AppDatabaseError::FailedToGetConnectionFromPool));
    assert_eq!(settle_write(DbWrite::AddClaim, DbOutcome::InteractionFailed), Err(AppDatabaseError::InteractionFailed));
    assert_eq!(settle_write(DbWrite::AddTransaction, DbOutcome::QueryFailed), Err(AppDatabaseError::QueryFailed));
}

#[test]
fn rewards_update_statements() {
    let rewards = vec![
        UpdateReward { miner_id: 7, balance: 1_500 },
        UpdateReward { miner_id: -2, balance: 0 },
    ];
    assert_eq!(
        build_rewards_update(&rewards),
        "UPDATE rewards SET balance = balance + 1500 WHERE miner_id = 7;UPDATE rewards SET balance = balance + 0 WHERE miner_id = -2;"
    );
    assert_eq!(build_rewards_update(&vec![]), "");
    let big = vec![UpdateReward { miner_id: i32::MIN, balance: u64::MAX }];
    assert_eq!(
        build_rewards_update(&big),
        format!("UPDATE rewards SET balance = balance + {} WHERE miner_id = {};", u64::MAX, i32::MIN)
    );
}
