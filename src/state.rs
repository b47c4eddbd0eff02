//! The records the pool keeps.

pub mod admin_control;
pub mod stake_pool;
pub mod token_account;
pub mod user_stake;
