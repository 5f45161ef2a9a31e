//! The rules by which the pool's database layer turns the outcome of a database
//! call into its result, and the batched reward update it sends.

use vstd::prelude::*;
use crate::decimal::{decimal, push_decimal, push_signed_decimal, signed_decimal};

verus! {

/// Errors of the pool's database layer.
#[derive(Clone, Copy, Debug, PartialEq, Eq)]
pub enum AppDatabaseError {
    FailedToGetConnectionFromPool,
    FailedToUpdateRow,
    FailedToInsertRow,
    InteractionFailed,
    QueryFailed,
}

/// How far a database call got: no connection could be taken from the pool, the
/// interaction with the connection failed, the statement failed, or it ran and
/// produced `T` (rows read, or the number of rows written).
#[derive(Clone, Copy, Debug, PartialEq, Eq)]
pub enum DbOutcome<T> {
    NoConnection,
    InteractionFailed,
    QueryFailed,
    Done(T),
}

/// The error a failed database call reports.
pub open spec fn failure_error<T>(o: DbOutcome<T>) -> AppDatabaseError {
    match o {
        DbOutcome::NoConnection => AppDatabaseError::FailedToGetConnectionFromPool,
        DbOutcome::InteractionFailed => AppDatabaseError::InteractionFailed,
        _ => AppDatabaseError::QueryFailed,
    }
}

/// The result of a reading call: the rows read, or the error of the stage that failed.
pub fn settle_query<T>(o: DbOutcome<T>) -> (r: Result<T, AppDatabaseError>)
    ensures
        match o {
            DbOutcome::Done(v) => r == Ok::<T, AppDatabaseError>(v),
            _ => r == Err::<T, AppDatabaseError>(failure_error(o)),
        },
        o is NoConnection ==> r == Err::<T, AppDatabaseError>(AppDatabaseError::FailedToGetConnectionFromPool),
        o is InteractionFailed ==> r == Err::<T, AppDatabaseError>(AppDatabaseError::InteractionFailed),
        o is QueryFailed ==> r == Err::<T, AppDatabaseError>(AppDatabaseError::QueryFailed),
{
    match o {
        DbOutcome::NoConnection => Err(AppDatabaseError::FailedToGetConnectionFromPool),
        DbOutcome::InteractionFailed => Err(AppDatabaseError::InteractionFailed),
        DbOutcome::QueryFailed => Err(AppDatabaseError::QueryFailed),
        DbOutcome::Done(v) => Ok(v),
    }
}

/// The writing calls of the database layer.
#[derive(Clone, Copy, Debug, PartialEq, Eq)]
pub enum DbWrite {
    AddReward,
    UpdateRewards,
    DecreaseMinerReward,
    AddSubmission,
    UpdateChallengeRewards,
    AddChallenge,
    AddPool,
    UpdatePoolRewards,
    UpdatePoolClaimed,
    AddMiner,
    AddClaim,
    AddTransaction,
    AddEarningsBatch,
}

/// What a write must have changed to succeed, given the rows it affected.
pub open spec fn rows_ok(w: DbWrite, rows: usize) -> bool {
    match w {
        DbWrite::AddSubmission => rows != 0,
        DbWrite::UpdateChallengeRewards | DbWrite::AddChallenge | DbWrite::AddPool
        | DbWrite::UpdatePoolRewards | DbWrite::UpdatePoolClaimed => rows == 1,
        _ => true,
    }
}

/// An update of a single row (a challenge's rewards, the pool's rewards or
/// claimed amount) succeeds exactly when it touched one row, and otherwise
/// reports that the row was not updated; adding a challenge or the pool must
/// likewise insert exactly one row, and adding a submission at least one.
pub proof fn lemma_single_row_writes(w: DbWrite, rows: usize)
    ensures
        (w is UpdateChallengeRewards || w is UpdatePoolRewards || w is UpdatePoolClaimed) ==> {
            &&& rows_ok(w, rows) <==> rows == 1
            &&& rows_error(w) == AppDatabaseError::FailedToUpdateRow
        },
        (w is AddChallenge || w is AddPool) ==> {
            &&& rows_ok(w, rows) <==> rows == 1
            &&& rows_error(w) == AppDatabaseError::FailedToInsertRow
        },
        w is AddSubmission ==> {
            &&& rows_ok(w, rows) <==> rows >= 1
            &&& rows_error(w) == AppDatabaseError::FailedToInsertRow
        },
{
}

/// The error of a write that ran but affected the wrong number of rows.
pub open spec fn rows_error(w: DbWrite) -> AppDatabaseError {
    match w {
        DbWrite::UpdateChallengeRewards | DbWrite::UpdatePoolRewards | DbWrite::UpdatePoolClaimed =>
            AppDatabaseError::FailedToUpdateRow,
        _ => AppDatabaseError::FailedToInsertRow,
    }
}

/// The result of a writing call: inserting a submission must add a row; updating
/// a challenge's rewards, adding a challenge or a pool, and updating a pool's
/// rewards or claimed amount must touch exactly one row; the others succeed
/// whatever they touched.
pub fn settle_write(w: DbWrite, o: DbOutcome<usize>) -> (r: Result<(), AppDatabaseError>)
    ensures
        match o {
            DbOutcome::Done(rows) => r == (if rows_ok(w, rows) {
                Ok::<(), AppDatabaseError>(())
            } else {
                Err(rows_error(w))
            }),
            _ => r == Err::<(), AppDatabaseError>(failure_error(o)),
        },
        (w is UpdateChallengeRewards || w is UpdatePoolRewards || w is UpdatePoolClaimed) ==>
            (o matches DbOutcome::Done(rows) ==> r == (if rows == 1 {
            Ok::<(), AppDatabaseError>(())
        } else {
            Err(AppDatabaseError::FailedToUpdateRow)
        })),
        (w is AddChallenge || w is AddPool) ==> (o matches DbOutcome::Done(rows) ==> r == (if rows == 1 {
            Ok::<(), AppDatabaseError>(())
        } else {
            Err(AppDatabaseError::FailedToInsertRow)
        })),
        (w is AddReward || w is UpdateRewards || w is DecreaseMinerReward || w is AddMiner || w is AddClaim
            || w is AddTransaction || w is AddEarningsBatch) ==> (o is Done ==> r is Ok),
        o is NoConnection ==> r == Err::<(), AppDatabaseError>(AppDatabaseError::FailedToGetConnectionFromPool),
        o is InteractionFailed ==> r == Err::<(), AppDatabaseError>(AppDatabaseError::InteractionFailed),
        o is QueryFailed ==> r == Err::<(), AppDatabaseError>(AppDatabaseError::QueryFailed),
        w is AddSubmission ==> (o matches DbOutcome::Done(rows) ==> r == (if rows == 0 {
            Err(AppDatabaseError::FailedToInsertRow)
        } else {
            Ok::<(), AppDatabaseError>(())
        })),
{
    match o {
        DbOutcome::NoConnection => Err(AppDatabaseError::FailedToGetConnectionFromPool),
        DbOutcome::InteractionFailed => Err(AppDatabaseError::InteractionFailed),
        DbOutcome::QueryFailed => Err(AppDatabaseError::QueryFailed),
        DbOutcome::Done(rows) => {
            match w {
                DbWrite::AddSubmission => if rows == 0 {
                    Err(AppDatabaseError::FailedToInsertRow)
                } else {
                    Ok(())
                },
                DbWrite::UpdateChallengeRewards | DbWrite::UpdatePoolRewards | DbWrite::UpdatePoolClaimed =>
                    if rows != 1 {
                        Err(AppDatabaseError::FailedToUpdateRow)
                    } else {
                        Ok(())
                    },
                DbWrite::AddChallenge | DbWrite::AddPool => if rows != 1 {
                    Err(AppDatabaseError::FailedToInsertRow)
                } else {
                    Ok(())
                },
                _ => Ok(()),
            }
        },
    }
}

/// An amount to add to a miner's reward balance.
#[derive(Clone, Copy, Debug, PartialEq, Eq)]
pub struct UpdateReward {
    pub miner_id: i32,
    pub balance: u64,
}

/// The statement that adds one reward to a miner's balance.
pub open spec fn reward_update_sql(r: UpdateReward) -> Seq<char> {
    "UPDATE rewards SET balance = balance + "@ + decimal(r.balance as nat) + " WHERE miner_id = "@
        + signed_decimal(r.miner_id as int) + ";"@
}

/// The batch of statements that adds all `rewards`, in order.
pub open spec fn rewards_update_sql(rewards: Seq<UpdateReward>) -> Seq<char>
    decreases rewards.len(),
{
    if rewards.len() == 0 {
        Seq::empty()
    } else {
        rewards_update_sql(rewards.drop_last()) + reward_update_sql(rewards.last())
    }
}

/// Builds the batch of statements that adds every reward to its miner's balance.
pub fn build_rewards_update(rewards: &Vec<UpdateReward>) -> (q: String)
    ensures
        q@ == rewards_update_sql(rewards@),
{
    let mut q = String::new();
    let mut i: usize = 0;
    while i < rewards.len()
        invariant
            0 <= i <= rewards@.len(),
            q@ == rewards_update_sql(rewards@.take(i as int)),
        decreases rewards@.len() - i,
    {
        let r = rewards[i];
        let ghost before = q@;
        q.append("UPDATE rewards SET balance = balance + ");
        push_decimal(&mut q, r.balance);
        q.append(" WHERE miner_id = ");
        push_signed_decimal(&mut q, r.miner_id);
        q.append(";");
        proof {
            assert(rewards@.take(i + 1).drop_last() =~= rewards@.take(i as int));
            assert(rewards@.take(i + 1).last() == r);
            assert(q@ =~= before + reward_update_sql(r));
        }
        i = i + 1;
    }
    assert(rewards@.take(rewards@.len() as int) =~= rewards@);
    q
}

} // verus!
