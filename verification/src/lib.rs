//! Verified core of a mining-pool server for the ORE proof-of-work token:
//! nonce-range assignment, the client/server wire frames, epoch bookkeeping of
//! submitted solutions, reward sharing, priority fees and the settling of
//! database outcomes.

pub mod auth;
pub mod chain;
pub mod database;
pub mod decimal;
pub mod epoch;
pub mod fee;
pub mod keyed;
pub mod mining;
pub mod nonce;
pub mod pool_proof;
pub mod rewards;
pub mod server;
pub mod solution;
pub mod statements;
pub mod wire;
