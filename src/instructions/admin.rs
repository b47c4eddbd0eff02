//! The administrator's operations on a pool. Each is refused unless the
//! caller is the pool's authority.

use vstd::prelude::*;

use crate::constants::MAX_APY;
use crate::error::StakingError;
use crate::pubkey::Pubkey;
use crate::state::stake_pool::StakePool;

verus! {

/// The accounts of an administrator's operation: the caller and the pool.
#[derive(Clone, Copy, Debug)]
pub struct AdminControl {
    /// The caller, who signs the operation.
    pub authority: Pubkey,
    pub stake_pool: StakePool,
}

/// The pool after pausing (`paused`) or resuming new stakes at `now`.
pub open spec fn set_paused_outcome(ctx: AdminControl, paused: bool, now: i64) -> Result<
    AdminControl,
    StakingError,
> {
    if ctx.authority != ctx.stake_pool.authority {
        Err(StakingError::Unauthorized)
    } else {
        Ok(
            AdminControl {
                stake_pool: StakePool { paused, last_updated: now, ..ctx.stake_pool },
                ..ctx
            },
        )
    }
}

/// The pool after the three tier rates are replaced at `now`; each must be
/// within the ceiling.
pub open spec fn adjust_apy_outcome(
    ctx: AdminControl,
    flex_apy: u16,
    core_apy: u16,
    prime_apy: u16,
    now: i64,
) -> Result<AdminControl, StakingError> {
    if ctx.authority != ctx.stake_pool.authority {
        Err(StakingError::Unauthorized)
    } else if flex_apy > MAX_APY || core_apy > MAX_APY || prime_apy > MAX_APY {
        Err(StakingError::ApyTooHigh)
    } else {
        Ok(
            AdminControl {
                stake_pool: StakePool {
                    flex_apy,
                    core_apy,
                    prime_apy,
                    last_updated: now,
                    ..ctx.stake_pool
                },
                ..ctx
            },
        )
    }
}

/// The pool after its emission cap is set to `new_cap` at `now`; the cap
/// must be positive and not below the rewards already paid out.
pub open spec fn update_emission_cap_outcome(ctx: AdminControl, new_cap: u64, now: i64) -> Result<
    AdminControl,
    StakingError,
> {
    if ctx.authority != ctx.stake_pool.authority {
        Err(StakingError::Unauthorized)
    } else if new_cap == 0 {
        Err(StakingError::ZeroEmissionCap)
    } else if new_cap < ctx.stake_pool.total_distributed {
        Err(StakingError::InvalidEmissionCap)
    } else {
        Ok(
            AdminControl {
                stake_pool: StakePool { emission_cap: new_cap, last_updated: now, ..ctx.stake_pool },
                ..ctx
            },
        )
    }
}

/// The pool after its authority passes to `new_authority` at `now`; the
/// all-zero address is refused.
pub open spec fn transfer_authority_outcome(
    ctx: AdminControl,
    new_authority: Pubkey,
    now: i64,
) -> Result<AdminControl, StakingError> {
    if ctx.authority != ctx.stake_pool.authority {
        Err(StakingError::Unauthorized)
    } else if new_authority.is_null() {
        Err(StakingError::Unauthorized)
    } else {
        Ok(
            AdminControl {
                stake_pool: StakePool {
                    authority: new_authority,
                    last_updated: now,
                    ..ctx.stake_pool
                },
                ..ctx
            },
        )
    }
}

fn check_authority(ctx: &AdminControl) -> (r: Result<(), StakingError>)
    ensures
        r is Ok <==> ctx.authority == ctx.stake_pool.authority,
        r is Err ==> r == Err::<(), StakingError>(StakingError::Unauthorized),
{
    if ctx.authority == ctx.stake_pool.authority {
        Ok(())
    } else {
        Err(StakingError::Unauthorized)
    }
}

/// Pauses (`paused`) or resumes new stakes. Unstaking and claiming stay
/// available either way.
pub fn set_paused_handler(ctx: &mut AdminControl, paused: bool, now: i64) -> (r: Result<
    (),
    StakingError,
>)
    ensures
        match set_paused_outcome(*old(ctx), paused, now) {
            Ok(next) => r is Ok && *final(ctx) == next,
            Err(e) => r == Err::<(), StakingError>(e) && *final(ctx) == *old(ctx),
        },
        old(ctx).stake_pool.wf() ==> final(ctx).stake_pool.wf(),
{
    check_authority(ctx)?;
    ctx.stake_pool.paused = paused;
    ctx.stake_pool.last_updated = now;
    Ok(())
}

/// Replaces the three tier rates, each at most the ceiling. Rewards already
/// moved into pending balances are not touched.
pub fn adjust_apy_handler(
    ctx: &mut AdminControl,
    flex_apy: u16,
    core_apy: u16,
    prime_apy: u16,
    now: i64,
) -> (r: Result<(), StakingError>)
    ensures
        match adjust_apy_outcome(*old(ctx), flex_apy, core_apy, prime_apy, now) {
            Ok(next) => r is Ok && *final(ctx) == next,
            Err(e) => r == Err::<(), StakingError>(e) && *final(ctx) == *old(ctx),
        },
        old(ctx).stake_pool.wf() ==> final(ctx).stake_pool.wf(),
{
    check_authority(ctx)?;
    if flex_apy > MAX_APY || core_apy > MAX_APY || prime_apy > MAX_APY {
        return Err(StakingError::ApyTooHigh);
    }
    ctx.stake_pool.flex_apy = flex_apy;
    ctx.stake_pool.core_apy = core_apy;
    ctx.stake_pool.prime_apy = prime_apy;
    ctx.stake_pool.last_updated = now;
    Ok(())
}

/// Sets the emission cap, which must be positive and not below the rewards
/// already paid out.
pub fn update_emission_cap_handler(ctx: &mut AdminControl, new_cap: u64, now: i64) -> (r: Result<
    (),
    StakingError,
>)
    ensures
        match update_emission_cap_outcome(*old(ctx), new_cap, now) {
            Ok(next) => r is Ok && *final(ctx) == next,
            Err(e) => r == Err::<(), StakingError>(e) && *final(ctx) == *old(ctx),
        },
        old(ctx).stake_pool.wf() ==> final(ctx).stake_pool.wf(),
{
    check_authority(ctx)?;
    if new_cap == 0 {
        return Err(StakingError::ZeroEmissionCap);
    }
    if new_cap < ctx.stake_pool.total_distributed {
        return Err(StakingError::InvalidEmissionCap);
    }
    ctx.stake_pool.emission_cap = new_cap;
    ctx.stake_pool.last_updated = now;
    Ok(())
}

/// Hands the pool's authority to `new_authority`, which must not be the
/// all-zero address.
pub fn transfer_authority_handler(ctx: &mut AdminControl, new_authority: Pubkey, now: i64) -> (r:
    Result<(), StakingError>)
    ensures
        match transfer_authority_outcome(*old(ctx), new_authority, now) {
            Ok(next) => r is Ok && *final(ctx) == next,
            Err(e) => r == Err::<(), StakingError>(e) && *final(ctx) == *old(ctx),
        },
        old(ctx).stake_pool.wf() ==> final(ctx).stake_pool.wf(),
{
    check_authority(ctx)?;
    if new_authority.is_null_key() {
        return Err(StakingError::Unauthorized);
    }
    ctx.stake_pool.authority = new_authority;
    ctx.stake_pool.last_updated = now;
    Ok(())
}

} // verus!
