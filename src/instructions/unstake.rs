//! Withdrawing staked tokens once the lock has ended.

use vstd::prelude::*;

use crate::error::StakingError;
use crate::instructions::binding::{
    check_position_binding, check_vault_accounts, position_binding_error, vault_accounts_error,
};
use crate::instructions::stake::{calculate_pending_rewards, pending_rewards_of};
use crate::pubkey::Pubkey;
use crate::state::stake_pool::StakePool;
use crate::state::token_account::TokenAccount;
use crate::state::user_stake::{lock_period_of, UserStake};

verus! {

/// The accounts of an unstake: the staker, the pool, the staker's position
/// and the two token accounts between which the tokens move back.
#[derive(Clone, Copy, Debug)]
pub struct Unstake {
    /// The staker, who signs the operation.
    pub user: Pubkey,
    /// The pool record's address.
    pub stake_pool_key: Pubkey,
    pub stake_pool: StakePool,
    pub user_stake: UserStake,
    pub staking_mint: Pubkey,
    /// The staker's token account, which receives the tokens.
    pub user_token_account: TokenAccount,
    /// The pool's staking vault, which pays them.
    pub staking_vault: TokenAccount,
}

/// The first mismatch, if any, among the accounts of an unstake.
pub open spec fn unstake_accounts_error(ctx: Unstake) -> Option<StakingError> {
    let e = vault_accounts_error(
        ctx.stake_pool,
        ctx.stake_pool_key,
        ctx.stake_pool.staking_vault,
        StakingError::VaultMismatch,
        StakingError::InvalidVaultOwner,
        ctx.staking_mint,
        ctx.user,
        ctx.user_token_account,
        ctx.staking_vault,
    );
    if e is Some {
        e
    } else {
        position_binding_error(ctx.user_stake, ctx.user, ctx.stake_pool_key)
    }
}

/// The records after an unstake of `amount` at `now`, or the first
/// condition that refuses it.
///
/// The position must be active, hold at least `amount` and be past its
/// lock. What it has accrued moves into its pending rewards, accrual
/// restarts at `now`, and `amount` leaves the position and the pool's
/// total. A position left empty is closed and the pool counts one active
/// staker fewer.
pub open spec fn unstake_outcome(ctx: Unstake, amount: u64, now: i64) -> Result<
    Unstake,
    StakingError,
> {
    let pool = ctx.stake_pool;
    let us = ctx.user_stake;
    let pending = pending_rewards_of(us, pool, now);
    let staked_amount = us.staked_amount - amount;
    if unstake_accounts_error(ctx) is Some {
        Err(unstake_accounts_error(ctx)->Some_0)
    } else if amount == 0 {
        Err(StakingError::ZeroAmount)
    } else if !us.is_active {
        Err(StakingError::NoActiveStake)
    } else if us.staked_amount < amount {
        Err(StakingError::InsufficientStakedBalance)
    } else if now <= 0 {
        Err(StakingError::InvalidTimestamp)
    } else if !us.lock_ended(now) {
        Err(StakingError::LockPeriodNotEnded)
    } else if pending is Err {
        Err(pending->Err_0)
    } else if us.pending_rewards + pending->Ok_0 > u64::MAX {
        Err(StakingError::MathOverflow)
    } else if staked_amount == 0 && pool.staker_count == 0 {
        Err(StakingError::MathUnderflow)
    } else if pool.total_staked < amount {
        Err(StakingError::MathUnderflow)
    } else {
        Ok(
            Unstake {
                user_stake: UserStake {
                    pending_rewards: (us.pending_rewards + pending->Ok_0) as u64,
                    last_claim_time: now,
                    staked_amount: staked_amount as u64,
                    is_active: staked_amount != 0,
                    ..us
                },
                stake_pool: StakePool {
                    staker_count: if staked_amount == 0 {
                        (pool.staker_count - 1) as u64
                    } else {
                        pool.staker_count
                    },
                    total_staked: (pool.total_staked - amount) as u64,
                    last_updated: now,
                    ..pool
                },
                ..ctx
            },
        )
    }
}

/// Before the lock of a locked tier ends, an unstake otherwise in order is
/// refused for the lock; the handler then changes nothing.
pub proof fn lemma_unstake_refused_while_locked(ctx: Unstake, amount: u64, now: i64)
    requires
        unstake_accounts_error(ctx) is None,
        ctx.user_stake.is_active,
        0 < amount <= ctx.user_stake.staked_amount,
        lock_period_of(ctx.user_stake.tier) > 0,
        0 < now < ctx.user_stake.stake_start_time + lock_period_of(ctx.user_stake.tier),
        now < i64::MAX,
    ensures
        unstake_outcome(ctx, amount, now) == Err::<Unstake, StakingError>(
            StakingError::LockPeriodNotEnded,
        ),
{
}

/// Once the lock has ended, an unstake whose accounts are bound to the pool
/// and the caller succeeds on a pool whose totals cover the position, and
/// takes `amount` out of the position and the pool.
pub proof fn lemma_unstake_allowed_after_lock(ctx: Unstake, amount: u64, now: i64)
    requires
        unstake_accounts_error(ctx) is None,
        ctx.user_stake.is_active,
        0 < amount <= ctx.user_stake.staked_amount,
        now > 0,
        now >= ctx.user_stake.stake_start_time + lock_period_of(ctx.user_stake.tier),
        pending_rewards_of(ctx.user_stake, ctx.stake_pool, now) is Ok,
        ctx.user_stake.pending_rewards + pending_rewards_of(
            ctx.user_stake,
            ctx.stake_pool,
            now,
        )->Ok_0 <= u64::MAX,
        ctx.stake_pool.total_staked >= amount,
        ctx.stake_pool.staker_count >= 1,
    ensures
        unstake_outcome(ctx, amount, now) is Ok,
        unstake_outcome(ctx, amount, now)->Ok_0.user_stake.staked_amount
            == ctx.user_stake.staked_amount - amount,
        unstake_outcome(ctx, amount, now)->Ok_0.stake_pool.total_staked
            == ctx.stake_pool.total_staked - amount,
{
}

/// Withdraws `amount` staked tokens at `now` (see [`unstake_outcome`]).
/// On success the records are updated and the result is the number of
/// tokens to move from the staking vault to the staker's token account.
/// On failure nothing changes.
pub fn handler(ctx: &mut Unstake, amount: u64, now: i64) -> (r: Result<u64, StakingError>)
    ensures
        match unstake_outcome(*old(ctx), amount, now) {
            Ok(next) => r == Ok::<u64, StakingError>(amount) && *final(ctx) == next,
            Err(e) => r == Err::<u64, StakingError>(e) && *final(ctx) == *old(ctx),
        },
        old(ctx).stake_pool.wf() ==> final(ctx).stake_pool.wf(),
        old(ctx).user_stake.wf() ==> final(ctx).user_stake.wf(),
{
    if let Some(e) = check_vault_accounts(
        &ctx.stake_pool,
        &ctx.stake_pool_key,
        &ctx.stake_pool.staking_vault,
        StakingError::VaultMismatch,
        StakingError::InvalidVaultOwner,
        &ctx.staking_mint,
        &ctx.user,
        &ctx.user_token_account,
        &ctx.staking_vault,
    ) {
        return Err(e);
    }
    if let Some(e) = check_position_binding(&ctx.user_stake, &ctx.user, &ctx.stake_pool_key) {
        return Err(e);
    }
    let stake_pool = &ctx.stake_pool;
    let user_stake = &ctx.user_stake;
    if amount == 0 {
        return Err(StakingError::ZeroAmount);
    }
    if !user_stake.is_active {
        return Err(StakingError::NoActiveStake);
    }
    if user_stake.staked_amount < amount {
        return Err(StakingError::InsufficientStakedBalance);
    }
    if now <= 0 {
        return Err(StakingError::InvalidTimestamp);
    }
    if !user_stake.is_lock_ended(now) {
        return Err(StakingError::LockPeriodNotEnded);
    }
    let pending = calculate_pending_rewards(user_stake, stake_pool, now)?;

    let pending_rewards = match user_stake.pending_rewards.checked_add(pending) {
        Some(p) => p,
        None => {
            return Err(StakingError::MathOverflow);
        },
    };
    let staked_amount = user_stake.staked_amount - amount;
    let staker_count = if staked_amount == 0 {
        match stake_pool.staker_count.checked_sub(1) {
            Some(n) => n,
            None => {
                return Err(StakingError::MathUnderflow);
            },
        }
    } else {
        stake_pool.staker_count
    };
    let total_staked = match stake_pool.total_staked.checked_sub(amount) {
        Some(t) => t,
        None => {
            return Err(StakingError::MathUnderflow);
        },
    };

    ctx.user_stake.pending_rewards = pending_rewards;
    ctx.user_stake.last_claim_time = now;
    ctx.user_stake.staked_amount = staked_amount;
    ctx.user_stake.is_active = staked_amount != 0;
    ctx.stake_pool.staker_count = staker_count;
    ctx.stake_pool.total_staked = total_staked;
    ctx.stake_pool.last_updated = now;
    Ok(amount)
}

} // verus!
