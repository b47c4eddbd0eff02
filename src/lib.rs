//! Accounting and state-machine core of a time-locked, three-tier token
//! staking pool.
//!
//! The library keeps one pool record and one position record per depositor,
//! accrues rewards linearly at a tier-specific annual rate, enforces lock
//! periods and a bounded reward-emission budget, and authorises the
//! administrator's operations. Every operation is a function from the
//! records it touches (plus the current time) to either an error, with the
//! records left as they were, or the updated records together with the
//! number of tokens the caller must move between accounts.

pub mod constants;
pub mod error;
pub mod instructions;
pub mod invariants;
pub mod pubkey;
pub mod state;
