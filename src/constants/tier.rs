//! Selectors of the three staking tiers.

use vstd::prelude::*;

verus! {

/// Flex tier: no lock period, lowest rate.
pub const FLEX: u8 = 0;

/// Core tier: 90-day lock, medium rate.
pub const CORE: u8 = 1;

/// Prime tier: 180-day lock, highest rate.
pub const PRIME: u8 = 2;

/// A tier selector names one of the three tiers.
pub open spec fn is_valid_tier(tier: u8) -> bool {
    tier == FLEX || tier == CORE || tier == PRIME
}

} // verus!
