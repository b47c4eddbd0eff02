//! The position record of one depositor in one pool, and its lock policy.

use vstd::prelude::*;

use crate::constants::tier::{CORE, FLEX, PRIME};
use crate::constants::{CORE_LOCK_PERIOD, FLEX_LOCK_PERIOD, PRIME_LOCK_PERIOD};
use crate::pubkey::Pubkey;

verus! {

/// `x` clamped into the range of `i64`.
pub open spec fn saturate_i64(x: int) -> i64 {
    if x > i64::MAX {
        i64::MAX
    } else if x < i64::MIN {
        i64::MIN
    } else {
        x as i64
    }
}

/// `a + b`, clamped into the range of `i64`.
pub fn saturating_add_i64(a: i64, b: i64) -> (r: i64)
    ensures
        r == saturate_i64(a + b),
{
    match a.checked_add(b) {
        Some(v) => v,
        None => if b > 0 {
            i64::MAX
        } else {
            i64::MIN
        },
    }
}

/// `a - b`, clamped into the range of `i64`.
pub fn saturating_sub_i64(a: i64, b: i64) -> (r: i64)
    ensures
        r == saturate_i64(a - b),
{
    match a.checked_sub(b) {
        Some(v) => v,
        None => if b < 0 {
            i64::MAX
        } else {
            i64::MIN
        },
    }
}

/// The lock duration of a tier, in seconds; an unknown tier has none.
pub open spec fn lock_period_of(tier: u8) -> i64 {
    if tier == FLEX {
        FLEX_LOCK_PERIOD
    } else if tier == CORE {
        CORE_LOCK_PERIOD
    } else if tier == PRIME {
        PRIME_LOCK_PERIOD
    } else {
        0
    }
}

/// One depositor's position in one pool.
#[derive(Clone, Copy, Debug)]
pub struct UserStake {
    /// The depositor; the all-zero address on a record never staked into.
    pub owner: Pubkey,
    /// The pool this position belongs to.
    pub stake_pool: Pubkey,
    /// Tokens staked now.
    pub staked_amount: u64,
    /// The tier selector; fixed while tokens are staked.
    pub tier: u8,
    /// When the current stake began; the lock runs from here.
    pub stake_start_time: i64,
    /// Up to when rewards have been accrued.
    pub last_claim_time: i64,
    /// Rewards paid out to this position so far.
    pub total_rewards_claimed: u64,
    /// Rewards accrued and not yet paid out.
    pub pending_rewards: u64,
    /// Whether tokens are staked.
    pub is_active: bool,
    /// Derivation bump of the record's address.
    pub bump: u8,
}

impl UserStake {
    /// The position's invariant: it is active exactly when it holds tokens.
    pub open spec fn wf(self) -> bool {
        self.staked_amount == 0 <==> !self.is_active
    }

    /// The record was never staked into.
    pub open spec fn is_blank(self) -> bool {
        self.owner.is_null()
    }

    /// When the lock of the current stake ends.
    pub open spec fn lock_end(self) -> i64 {
        saturate_i64(self.stake_start_time + lock_period_of(self.tier))
    }

    /// Whether the tokens may be withdrawn at `now`.
    pub open spec fn lock_ended(self, now: i64) -> bool {
        lock_period_of(self.tier) == 0 || now >= self.lock_end()
    }

    /// Seconds left until the lock ends at `now`, 0 once it has.
    pub open spec fn lock_remaining(self, now: i64) -> i64 {
        if now >= self.lock_end() {
            0
        } else {
            saturate_i64(self.lock_end() - now)
        }
    }

    /// The lock duration, in seconds, of this position's tier.
    pub fn get_lock_period(&self) -> (r: i64)
        ensures
            r == lock_period_of(self.tier),
    {
        match self.tier {
            0 => FLEX_LOCK_PERIOD,
            1 => CORE_LOCK_PERIOD,
            2 => PRIME_LOCK_PERIOD,
            _ => 0,
        }
    }

    /// Whether the lock period has ended at `current_time`. A tier without a
    /// lock is always unlocked; a lock end past the range of `i64` is taken
    /// as `i64::MAX`.
    pub fn is_lock_ended(&self, current_time: i64) -> (r: bool)
        ensures
            r == self.lock_ended(current_time),
    {
        let lock_period = self.get_lock_period();
        if lock_period == 0 {
            return true;
        }
        let lock_end = saturating_add_i64(self.stake_start_time, lock_period);
        current_time >= lock_end
    }

    /// When the lock ends: the stake start plus the tier's lock period,
    /// saturating.
    pub fn lock_end_time(&self) -> (r: i64)
        ensures
            r == self.lock_end(),
    {
        saturating_add_i64(self.stake_start_time, self.get_lock_period())
    }

    /// Seconds remaining until the lock ends, or 0 if it already has.
    pub fn remaining_lock_time(&self, current_time: i64) -> (r: i64)
        ensures
            r == self.lock_remaining(current_time),
            r >= 0,
    {
        let lock_end = self.lock_end_time();
        if current_time >= lock_end {
            0
        } else {
            saturating_sub_i64(lock_end, current_time)
        }
    }
}

impl Default for UserStake {
    /// A record never staked into: every field zero.
    fn default() -> (r: UserStake)
        ensures
            r.is_blank(),
            r.stake_pool.is_null(),
            r.staked_amount == 0,
            r.tier == 0,
            r.stake_start_time == 0,
            r.last_claim_time == 0,
            r.total_rewards_claimed == 0,
            r.pending_rewards == 0,
            !r.is_active,
            r.bump == 0,
            r.wf(),
    {
        UserStake {
            owner: Pubkey::default(),
            stake_pool: Pubkey::default(),
            staked_amount: 0,
            tier: 0,
            stake_start_time: 0,
            last_claim_time: 0,
            total_rewards_claimed: 0,
            pending_rewards: 0,
            is_active: false,
            bump: 0,
        }
    }
}

} // verus!
