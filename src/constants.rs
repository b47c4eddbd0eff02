//! Time periods, rate limits and precision values shared by the pool logic.

pub mod tier;

use vstd::prelude::*;

verus! {

/// Number of seconds in a day.
pub const SECONDS_PER_DAY: i64 = 86_400;

/// Number of seconds in a year (365 days).
pub const SECONDS_PER_YEAR: u64 = 365 * 86_400;

/// Lock period of the Core tier in seconds (90 days).
pub const CORE_LOCK_PERIOD: i64 = 90 * SECONDS_PER_DAY;

/// Lock period of the Prime tier in seconds (180 days).
pub const PRIME_LOCK_PERIOD: i64 = 180 * SECONDS_PER_DAY;

/// The Flex tier has no lock period.
pub const FLEX_LOCK_PERIOD: i64 = 0;

/// Default rate of the Flex tier (4% = 400 basis points).
pub const DEFAULT_FLEX_APY: u16 = 400;

/// Default rate of the Core tier (10% = 1000 basis points).
pub const DEFAULT_CORE_APY: u16 = 1000;

/// Default rate of the Prime tier (14% = 1400 basis points).
pub const DEFAULT_PRIME_APY: u16 = 1400;

/// Highest rate a tier may be given (50% = 5000 basis points).
pub const MAX_APY: u16 = 5000;

/// Basis points denominator (100% = 10000 basis points).
pub const BASIS_POINTS_DENOMINATOR: u64 = 10_000;

} // verus!
