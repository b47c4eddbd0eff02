//! The pool's operations. Each takes the records it reads and writes, the
//! caller's identity and the current time, and either refuses with a
//! [`crate::error::StakingError`], leaving the records as they were, or
//! updates them and returns the number of tokens the caller must then move.

pub mod admin;
pub mod binding;
pub mod claim_rewards;
pub mod fund_treasury;
pub mod initialize;
pub mod stake;
pub mod unstake;
