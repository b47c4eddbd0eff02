//! Staking into a tier, and the reward accrual engine.

use vstd::prelude::*;

use crate::constants::tier::{is_valid_tier, CORE, FLEX, PRIME};
use crate::constants::{BASIS_POINTS_DENOMINATOR, SECONDS_PER_YEAR};
use crate::error::StakingError;
use crate::instructions::binding::{
    check_position_binding, check_vault_accounts, position_binding_error, vault_accounts_error,
};
use crate::pubkey::Pubkey;
use crate::state::stake_pool::StakePool;
use crate::state::token_account::TokenAccount;
use crate::state::user_stake::UserStake;

verus! {

/// The reward earned by `staked` tokens at `apy` basis points a year over
/// `elapsed` seconds, rounded down.
pub open spec fn accrued(staked: u64, apy: u16, elapsed: int) -> int {
    (staked * apy * elapsed) / (BASIS_POINTS_DENOMINATOR * SECONDS_PER_YEAR) as int
}

/// What accrual at `now` yields for a position: nothing for an inactive or
/// empty position, for a `now` not after the last accrual (a clock that
/// went back included), or for a zero rate; an error for a negative stored
/// accrual time, or for a reward beyond `u64`.
pub open spec fn pending_rewards_of(us: UserStake, pool: StakePool, now: i64) -> Result<
    u64,
    StakingError,
> {
    let elapsed = now - us.last_claim_time;
    let apy = pool.apy_of(us.tier);
    if !us.is_active || us.staked_amount == 0 {
        Ok(0)
    } else if elapsed <= 0 {
        Ok(0)
    } else if us.last_claim_time < 0 {
        Err(StakingError::InvalidTimestamp)
    } else if apy == 0 {
        Ok(0)
    } else if accrued(us.staked_amount, apy, elapsed) > u64::MAX {
        Err(StakingError::ConversionOverflow)
    } else {
        Ok(accrued(us.staked_amount, apy, elapsed) as u64)
    }
}

/// A product beyond `u128` gives a reward beyond `u64`.
proof fn lemma_wide_product_overflows_result(product: int)
    requires
        product > u128::MAX,
    ensures
        product / (BASIS_POINTS_DENOMINATOR * SECONDS_PER_YEAR) as int > u64::MAX,
{
    let d: int = (BASIS_POINTS_DENOMINATOR * SECONDS_PER_YEAR) as int;
    let low: int = (u64::MAX + 1) * d;
    assert(low <= product);
    vstd::arithmetic::div_mod::lemma_div_is_ordered(low, product, d);
    vstd::arithmetic::div_mod::lemma_div_by_multiple(u64::MAX + 1, d);
}

proof fn lemma_accrued_ordered(staked: u64, apy: u16, e1: int, e2: int)
    requires
        0 <= e1 <= e2,
    ensures
        staked * apy * e1 <= staked * apy * e2,
        accrued(staked, apy, e1) <= accrued(staked, apy, e2),
{
    let k = staked * apy;
    assert(k >= 0) by (nonlinear_arith)
        requires
            staked >= 0,
            apy >= 0,
            k == staked * apy,
    ;
    assert(k * e1 <= k * e2) by (nonlinear_arith)
        requires
            k >= 0,
            0 <= e1 <= e2,
    ;
    vstd::arithmetic::div_mod::lemma_div_is_ordered(
        k * e1,
        k * e2,
        (BASIS_POINTS_DENOMINATOR * SECONDS_PER_YEAR) as int,
    );
}

/// Accrual does not decrease as time moves forward: with the position and
/// the pool unchanged, if accrual at `t2` succeeds then accrual at any
/// earlier `t1` succeeds as well and yields no more.
pub proof fn lemma_accrual_monotonic(us: UserStake, pool: StakePool, t1: i64, t2: i64)
    requires
        t1 <= t2,
        pending_rewards_of(us, pool, t2) is Ok,
    ensures
        pending_rewards_of(us, pool, t1) is Ok,
        pending_rewards_of(us, pool, t1)->Ok_0 <= pending_rewards_of(us, pool, t2)->Ok_0,
{
    if us.is_active && us.staked_amount != 0 && t1 - us.last_claim_time > 0
        && us.last_claim_time >= 0 {
        lemma_accrued_ordered(
            us.staked_amount,
            pool.apy_of(us.tier),
            t1 - us.last_claim_time,
            t2 - us.last_claim_time,
        );
    }
}

/// Over exactly one year, accrual pays the tier's annual rate on the staked
/// amount: `floor(staked × rate / 10_000)`.
pub proof fn lemma_one_year_accrual(us: UserStake, pool: StakePool, now: i64)
    requires
        pool.wf(),
        us.is_active,
        us.staked_amount > 0,
        us.last_claim_time >= 0,
        now == us.last_claim_time + SECONDS_PER_YEAR,
    ensures
        pending_rewards_of(us, pool, now) == Ok::<u64, StakingError>(
            (us.staked_amount * pool.apy_of(us.tier) / BASIS_POINTS_DENOMINATOR as int) as u64,
        ),
{
    let apy = pool.apy_of(us.tier);
    let k: int = us.staked_amount * apy;
    let y: int = SECONDS_PER_YEAR as int;
    assert(0 <= k <= us.staked_amount * 5000) by (nonlinear_arith)
        requires
            k == us.staked_amount * apy,
            0 <= apy <= 5000,
            us.staked_amount >= 0,
    ;
    assert(k * y == y * k) by (nonlinear_arith);
    vstd::arithmetic::div_mod::lemma_div_multiples_vanish_quotient(y, k, 10_000);
    assert(k / 10_000 <= u64::MAX) by (nonlinear_arith)
        requires
            0 <= k <= us.staked_amount * 5000,
            us.staked_amount <= u64::MAX,
    ;
    assert(accrued(us.staked_amount, apy, y) == k / 10_000);
}

/// The reward a position has earned since its last accrual, at
/// `current_time`: `floor(staked × rate × elapsed / (10_000 × year))`. The
/// product is carried in 128 bits; one that does not fit there gives a
/// reward beyond `u64`, refused as such. Never changes a record.
pub fn calculate_pending_rewards(
    user_stake: &UserStake,
    stake_pool: &StakePool,
    current_time: i64,
) -> (r: Result<u64, StakingError>)
    ensures
        r == pending_rewards_of(*user_stake, *stake_pool, current_time),
{
    if !user_stake.is_active || user_stake.staked_amount == 0 {
        return Ok(0);
    }
    if current_time <= user_stake.last_claim_time {
        return Ok(0);
    }
    if user_stake.last_claim_time < 0 {
        return Err(StakingError::InvalidTimestamp);
    }
    let time_diff: i64 = current_time - user_stake.last_claim_time;
    let time_elapsed: u64 = time_diff as u64;
    let apy = stake_pool.get_apy_for_tier(user_stake.tier);
    if apy == 0 {
        return Ok(0);
    }
    let staked: u128 = user_stake.staked_amount as u128;
    let apy_128: u128 = apy as u128;
    let time_128: u128 = time_elapsed as u128;
    let year_seconds: u128 = SECONDS_PER_YEAR as u128;
    let basis_points: u128 = BASIS_POINTS_DENOMINATOR as u128;
    assert(staked * apy_128 <= u128::MAX) by (nonlinear_arith)
        requires
            staked <= u64::MAX,
            apy_128 <= u16::MAX,
    ;
    let rate_product: u128 = staked * apy_128;
    let numerator: u128 = match rate_product.checked_mul(time_128) {
        Some(n) => n,
        None => {
            proof {
                lemma_wide_product_overflows_result(rate_product * time_128);
            }
            return Err(StakingError::ConversionOverflow);
        },
    };
    let denominator: u128 = basis_points * year_seconds;
    let rewards_128: u128 = numerator / denominator;
    if rewards_128 > u64::MAX as u128 {
        return Err(StakingError::ConversionOverflow);
    }
    Ok(rewards_128 as u64)
}

/// The accounts of a stake: the staker, the pool, the staker's position
/// (a blank record on the first stake) and the two token accounts between
/// which the stake moves.
#[derive(Clone, Copy, Debug)]
pub struct Stake {
    /// The staker, who signs the operation.
    pub user: Pubkey,
    /// The pool record's address.
    pub stake_pool_key: Pubkey,
    pub stake_pool: StakePool,
    pub user_stake: UserStake,
    /// Derivation bump of the position record's address.
    pub user_stake_bump: u8,
    pub staking_mint: Pubkey,
    /// The staker's token account, which pays the stake.
    pub user_token_account: TokenAccount,
    /// The pool's staking vault, which receives it.
    pub staking_vault: TokenAccount,
}

/// The first mismatch, if any, among the accounts of a stake. A blank
/// position is not yet bound to anyone.
pub open spec fn stake_accounts_error(ctx: Stake) -> Option<StakingError> {
    let e = vault_accounts_error(
        ctx.stake_pool,
        ctx.stake_pool_key,
        ctx.stake_pool.staking_vault,
        StakingError::VaultMismatch,
        StakingError::InvalidVaultOwner,
        ctx.staking_mint,
        ctx.user,
        ctx.user_token_account,
        ctx.staking_vault,
    );
    if e is Some {
        e
    } else if ctx.user_stake.is_blank() {
        None
    } else {
        position_binding_error(ctx.user_stake, ctx.user, ctx.stake_pool_key)
    }
}

/// The records after a stake of `amount` into `tier` at `now`, or the first
/// condition that refuses it.
///
/// An inactive position (blank, or closed by a full unstake) is opened: it
/// is bound to the staker and the pool, takes the tier, starts its lock and
/// its accrual at `now`, and the pool counts one more active staker; the
/// pending and claimed rewards of a closed position are kept. An active
/// position must keep its tier: what it has accrued moves into its pending
/// rewards and accrual restarts at `now`. Either way `amount` is added to
/// the position and to the pool's total.
pub open spec fn stake_outcome(ctx: Stake, amount: u64, tier: u8, now: i64) -> Result<
    Stake,
    StakingError,
> {
    let pool = ctx.stake_pool;
    let us = ctx.user_stake;
    let pending = pending_rewards_of(us, pool, now);
    if stake_accounts_error(ctx) is Some {
        Err(stake_accounts_error(ctx)->Some_0)
    } else if pool.paused {
        Err(StakingError::StakingPaused)
    } else if amount == 0 {
        Err(StakingError::ZeroAmount)
    } else if !is_valid_tier(tier) {
        Err(StakingError::InvalidTier)
    } else if us.is_active && us.staked_amount > 0 && us.tier != tier {
        Err(StakingError::CannotChangeTier)
    } else if now <= 0 {
        Err(StakingError::InvalidTimestamp)
    } else if pending is Err {
        Err(pending->Err_0)
    } else if !us.is_active && pool.staker_count + 1 > u64::MAX {
        Err(StakingError::MathOverflow)
    } else if us.is_active && us.pending_rewards + pending->Ok_0 > u64::MAX {
        Err(StakingError::MathOverflow)
    } else if us.staked_amount + amount > u64::MAX {
        Err(StakingError::MathOverflow)
    } else if pool.total_staked + amount > u64::MAX {
        Err(StakingError::MathOverflow)
    } else {
        let position = if !us.is_active {
            UserStake {
                owner: ctx.user,
                stake_pool: ctx.stake_pool_key,
                tier,
                stake_start_time: now,
                last_claim_time: now,
                is_active: true,
                bump: ctx.user_stake_bump,
                staked_amount: (us.staked_amount + amount) as u64,
                ..us
            }
        } else {
            UserStake {
                pending_rewards: (us.pending_rewards + pending->Ok_0) as u64,
                last_claim_time: now,
                staked_amount: (us.staked_amount + amount) as u64,
                ..us
            }
        };
        let staker_count = if !us.is_active {
            (pool.staker_count + 1) as u64
        } else {
            pool.staker_count
        };
        Ok(
            Stake {
                stake_pool: StakePool {
                    total_staked: (pool.total_staked + amount) as u64,
                    staker_count,
                    last_updated: now,
                    ..pool
                },
                user_stake: position,
                ..ctx
            },
        )
    }
}

/// Stakes `amount` tokens into `tier` at `now` (see [`stake_outcome`]).
/// On success the records are updated and the result is the number of
/// tokens to move from the staker's token account into the staking vault.
/// On failure nothing changes.
pub fn handler(ctx: &mut Stake, amount: u64, tier: u8, now: i64) -> (r: Result<u64, StakingError>)
    ensures
        match stake_outcome(*old(ctx), amount, tier, now) {
            Ok(next) => r == Ok::<u64, StakingError>(amount) && *final(ctx) == next,
            Err(e) => r == Err::<u64, StakingError>(e) && *final(ctx) == *old(ctx),
        },
        old(ctx).stake_pool.wf() ==> final(ctx).stake_pool.wf(),
        old(ctx).user_stake.wf() ==> final(ctx).user_stake.wf(),
{
    if let Some(e) = check_vault_accounts(
        &ctx.stake_pool,
        &ctx.stake_pool_key,
        &ctx.stake_pool.staking_vault,
        StakingError::VaultMismatch,
        StakingError::InvalidVaultOwner,
        &ctx.staking_mint,
        &ctx.user,
        &ctx.user_token_account,
        &ctx.staking_vault,
    ) {
        return Err(e);
    }
    if !ctx.user_stake.owner.is_null_key() {
        if let Some(e) = check_position_binding(&ctx.user_stake, &ctx.user, &ctx.stake_pool_key) {
            return Err(e);
        }
    }
    let stake_pool = &ctx.stake_pool;
    let user_stake = &ctx.user_stake;
    if stake_pool.paused {
        return Err(StakingError::StakingPaused);
    }
    if amount == 0 {
        return Err(StakingError::ZeroAmount);
    }
    if !(tier == FLEX || tier == CORE || tier == PRIME) {
        return Err(StakingError::InvalidTier);
    }
    if user_stake.is_active && user_stake.staked_amount > 0 && user_stake.tier != tier {
        return Err(StakingError::CannotChangeTier);
    }
    if now <= 0 {
        return Err(StakingError::InvalidTimestamp);
    }
    let pending = calculate_pending_rewards(user_stake, stake_pool, now)?;

    let opening = !user_stake.is_active;
    let staker_count = if opening {
        match stake_pool.staker_count.checked_add(1) {
            Some(n) => n,
            None => {
                return Err(StakingError::MathOverflow);
            },
        }
    } else {
        stake_pool.staker_count
    };
    let pending_rewards = if opening {
        user_stake.pending_rewards
    } else {
        match user_stake.pending_rewards.checked_add(pending) {
            Some(p) => p,
            None => {
                return Err(StakingError::MathOverflow);
            },
        }
    };
    let staked_amount = match user_stake.staked_amount.checked_add(amount) {
        Some(s) => s,
        None => {
            return Err(StakingError::MathOverflow);
        },
    };
    let total_staked = match stake_pool.total_staked.checked_add(amount) {
        Some(t) => t,
        None => {
            return Err(StakingError::MathOverflow);
        },
    };

    if opening {
        ctx.user_stake.owner = ctx.user;
        ctx.user_stake.stake_pool = ctx.stake_pool_key;
        ctx.user_stake.tier = tier;
        ctx.user_stake.stake_start_time = now;
        ctx.user_stake.is_active = true;
        ctx.user_stake.bump = ctx.user_stake_bump;
    }
    ctx.user_stake.pending_rewards = pending_rewards;
    ctx.user_stake.last_claim_time = now;
    ctx.user_stake.staked_amount = staked_amount;
    ctx.stake_pool.staker_count = staker_count;
    ctx.stake_pool.total_staked = total_staked;
    ctx.stake_pool.last_updated = now;
    Ok(amount)
}

} // verus!
