//! Accounting and custody core of a token staking pool: the pool and user
//! records, time-proportional reward accrual, the staking state machine with
//! its lock-up window, the funder whitelist and the pool teardown protocol.
//!
//! Token movements are not performed here: every operation that moves funds
//! returns the transfers (and account closures) that the host must execute
//! atomically together with the record updates.
pub mod state;
pub mod reward;
pub mod pool;
pub mod funders;
pub mod staking;
pub mod teardown;
pub mod laws;
