//! The pool record: configuration, rate table, emission budget and totals.

use vstd::prelude::*;

use crate::constants::tier::{CORE, FLEX, PRIME};
use crate::constants::MAX_APY;
use crate::pubkey::Pubkey;

verus! {

/// Global configuration and accounting of one staking pool.
#[derive(Clone, Copy, Debug)]
pub struct StakePool {
    /// The only identity that may change the pool's settings.
    pub authority: Pubkey,
    /// The token that is staked and paid out.
    pub staking_mint: Pubkey,
    /// The vault that holds staked tokens.
    pub staking_vault: Pubkey,
    /// The vault that holds reward tokens.
    pub treasury_vault: Pubkey,
    /// Annual rate of the Flex tier, in basis points.
    pub flex_apy: u16,
    /// Annual rate of the Core tier, in basis points.
    pub core_apy: u16,
    /// Annual rate of the Prime tier, in basis points.
    pub prime_apy: u16,
    /// Most rewards the pool will ever pay out in total.
    pub emission_cap: u64,
    /// Rewards paid out so far.
    pub total_distributed: u64,
    /// Tokens staked in the pool now.
    pub total_staked: u64,
    /// Number of active positions.
    pub staker_count: u64,
    /// Whether new stakes are refused.
    pub paused: bool,
    /// When the pool was created.
    pub created_at: i64,
    /// When the pool was last changed.
    pub last_updated: i64,
    /// Derivation bump of the pool's address.
    pub bump: u8,
    /// Derivation bump of the staking vault's address.
    pub vault_bump: u8,
    /// Derivation bump of the reward vault's address.
    pub treasury_bump: u8,
}

impl StakePool {
    /// The pool's invariant: the rewards paid out stay within the emission
    /// cap, the cap is positive, and every rate is within the ceiling.
    pub open spec fn wf(self) -> bool {
        &&& self.total_distributed <= self.emission_cap
        &&& self.emission_cap > 0
        &&& self.flex_apy <= MAX_APY
        &&& self.core_apy <= MAX_APY
        &&& self.prime_apy <= MAX_APY
    }

    /// The rate of a tier; an unknown tier earns nothing.
    pub open spec fn apy_of(self, tier: u8) -> u16 {
        if tier == FLEX {
            self.flex_apy
        } else if tier == CORE {
            self.core_apy
        } else if tier == PRIME {
            self.prime_apy
        } else {
            0
        }
    }

    /// The rate, in basis points, of the given tier (0 for an unknown tier).
    pub fn get_apy_for_tier(&self, tier: u8) -> (r: u16)
        ensures
            r == self.apy_of(tier),
    {
        match tier {
            0 => self.flex_apy,
            1 => self.core_apy,
            2 => self.prime_apy,
            _ => 0,
        }
    }

    /// Whether the pool takes new stakes.
    pub fn is_accepting_stakes(&self) -> (r: bool)
        ensures
            r == !self.paused,
    {
        !self.paused
    }

    /// How much more reward the pool may still pay out.
    pub fn remaining_emission_capacity(&self) -> (r: u64)
        ensures
            r == if self.emission_cap >= self.total_distributed {
                self.emission_cap - self.total_distributed
            } else {
                0
            },
    {
        self.emission_cap.saturating_sub(self.total_distributed)
    }
}

} // verus!
