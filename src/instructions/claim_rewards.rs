//! Paying out a position's rewards from the reward vault.

use vstd::prelude::*;

use crate::error::StakingError;
use crate::instructions::binding::{
    check_position_binding, check_vault_accounts, position_binding_error, vault_accounts_error,
};
use crate::constants::{BASIS_POINTS_DENOMINATOR, SECONDS_PER_YEAR};
use crate::instructions::stake::{
    calculate_pending_rewards, lemma_one_year_accrual, pending_rewards_of,
};
use crate::pubkey::Pubkey;
use crate::state::stake_pool::StakePool;
use crate::state::token_account::TokenAccount;
use crate::state::user_stake::UserStake;

verus! {

/// The accounts of a claim: the staker, the pool, the staker's position,
/// the staker's token account and the pool's reward vault.
#[derive(Clone, Copy, Debug)]
pub struct ClaimRewards {
    /// The staker, who signs the operation.
    pub user: Pubkey,
    /// The pool record's address.
    pub stake_pool_key: Pubkey,
    pub stake_pool: StakePool,
    pub user_stake: UserStake,
    pub staking_mint: Pubkey,
    /// The staker's token account, which receives the rewards.
    pub user_token_account: TokenAccount,
    /// The pool's reward vault, which pays them.
    pub treasury_vault: TokenAccount,
}

/// The first mismatch, if any, among the accounts of a claim.
pub open spec fn claim_accounts_error(ctx: ClaimRewards) -> Option<StakingError> {
    let e = vault_accounts_error(
        ctx.stake_pool,
        ctx.stake_pool_key,
        ctx.stake_pool.treasury_vault,
        StakingError::TreasuryMismatch,
        StakingError::InvalidTreasuryOwner,
        ctx.staking_mint,
        ctx.user,
        ctx.user_token_account,
        ctx.treasury_vault,
    );
    if e is Some {
        e
    } else {
        position_binding_error(ctx.user_stake, ctx.user, ctx.stake_pool_key)
    }
}

/// What a claim at `now` would pay: the pending rewards plus what has
/// accrued since the last accrual.
pub open spec fn claimable(ctx: ClaimRewards, now: i64) -> int {
    ctx.user_stake.pending_rewards + pending_rewards_of(ctx.user_stake, ctx.stake_pool, now)->Ok_0
}

/// The records after a claim at `now`, or the first condition that refuses
/// it.
///
/// The claim pays the pending rewards plus what has accrued since the last
/// accrual. It is refused when that is nothing, when the reward vault holds
/// less, or when the pool's paid-out total would pass the emission cap. On
/// success the pending rewards are zero, accrual restarts at `now`, and the
/// payment is added to the position's and the pool's paid-out totals.
pub open spec fn claim_outcome(ctx: ClaimRewards, now: i64) -> Result<ClaimRewards, StakingError> {
    let pool = ctx.stake_pool;
    let us = ctx.user_stake;
    let fresh = pending_rewards_of(us, pool, now);
    let total = claimable(ctx, now);
    if claim_accounts_error(ctx) is Some {
        Err(claim_accounts_error(ctx)->Some_0)
    } else if now <= 0 {
        Err(StakingError::InvalidTimestamp)
    } else if fresh is Err {
        Err(fresh->Err_0)
    } else if total > u64::MAX {
        Err(StakingError::MathOverflow)
    } else if total == 0 {
        Err(StakingError::NoRewardsAvailable)
    } else if ctx.treasury_vault.amount < total {
        Err(StakingError::InsufficientTreasuryFunds)
    } else if pool.total_distributed + total > u64::MAX {
        Err(StakingError::MathOverflow)
    } else if pool.total_distributed + total > pool.emission_cap {
        Err(StakingError::EmissionCapExceeded)
    } else if us.total_rewards_claimed + total > u64::MAX {
        Err(StakingError::MathOverflow)
    } else {
        Ok(
            ClaimRewards {
                user_stake: UserStake {
                    pending_rewards: 0,
                    last_claim_time: now,
                    total_rewards_claimed: (us.total_rewards_claimed + total) as u64,
                    ..us
                },
                stake_pool: StakePool {
                    total_distributed: (pool.total_distributed + total) as u64,
                    last_updated: now,
                    ..pool
                },
                ..ctx
            },
        )
    }
}

/// No double counting: right after a successful claim at `now`, nothing has
/// accrued any more at that same `now`, and a second claim at `now` is
/// refused for want of rewards.
pub proof fn lemma_claim_twice_pays_nothing(ctx: ClaimRewards, now: i64)
    requires
        claim_outcome(ctx, now) is Ok,
    ensures
        ({
            let next = claim_outcome(ctx, now)->Ok_0;
            &&& pending_rewards_of(next.user_stake, next.stake_pool, now) == Ok::<
                u64,
                StakingError,
            >(0)
            &&& claim_outcome(next, now) == Err::<ClaimRewards, StakingError>(
                StakingError::NoRewardsAvailable,
            )
        }),
{
}

/// A claim that would take the pool's paid-out total past the emission cap
/// is refused as such, when every earlier check passes; the handler then
/// leaves the paid-out total and the pending rewards as they were.
pub proof fn lemma_claim_past_cap_refused(ctx: ClaimRewards, now: i64)
    requires
        claim_accounts_error(ctx) is None,
        now > 0,
        pending_rewards_of(ctx.user_stake, ctx.stake_pool, now) is Ok,
        0 < claimable(ctx, now) <= u64::MAX,
        ctx.treasury_vault.amount >= claimable(ctx, now),
        ctx.stake_pool.total_distributed + claimable(ctx, now) <= u64::MAX,
        ctx.stake_pool.total_distributed + claimable(ctx, now) > ctx.stake_pool.emission_cap,
    ensures
        claim_outcome(ctx, now) == Err::<ClaimRewards, StakingError>(
            StakingError::EmissionCapExceeded,
        ),
{
}

/// A successful claim pays exactly what is claimable, and only within the
/// emission cap.
pub proof fn lemma_claim_within_cap(ctx: ClaimRewards, now: i64)
    requires
        claim_outcome(ctx, now) is Ok,
    ensures
        ctx.stake_pool.total_distributed + claimable(ctx, now) <= ctx.stake_pool.emission_cap,
        claim_outcome(ctx, now)->Ok_0.stake_pool.total_distributed
            == ctx.stake_pool.total_distributed + claimable(ctx, now),
{
}

/// A claim whose accounts are bound to the pool and the caller, with a
/// funded reward vault and room under the emission cap, succeeds and pays
/// the pending rewards plus everything accrued since the last accrual.
pub proof fn lemma_claim_pays_accrued(ctx: ClaimRewards, now: i64)
    requires
        claim_accounts_error(ctx) is None,
        now > 0,
        pending_rewards_of(ctx.user_stake, ctx.stake_pool, now) is Ok,
        0 < claimable(ctx, now) <= u64::MAX,
        ctx.treasury_vault.amount >= claimable(ctx, now),
        ctx.stake_pool.total_distributed + claimable(ctx, now) <= ctx.stake_pool.emission_cap,
        ctx.user_stake.total_rewards_claimed + claimable(ctx, now) <= u64::MAX,
    ensures
        claim_outcome(ctx, now) is Ok,
        ({
            let next = claim_outcome(ctx, now)->Ok_0;
            &&& next.stake_pool.total_distributed == ctx.stake_pool.total_distributed
                + claimable(ctx, now)
            &&& next.user_stake.total_rewards_claimed == ctx.user_stake.total_rewards_claimed
                + claimable(ctx, now)
            &&& next.user_stake.pending_rewards == 0
            &&& next.user_stake.last_claim_time == now
        }),
{
}

/// A claim exactly one year after the last accrual, on a position with
/// nothing pending, pays `floor(staked × rate / 10_000)` of the position's
/// tier, when the accounts are bound and the vault and the cap allow it.
pub proof fn lemma_one_year_claim(ctx: ClaimRewards, now: i64)
    requires
        ctx.stake_pool.wf(),
        claim_accounts_error(ctx) is None,
        ctx.user_stake.is_active,
        ctx.user_stake.staked_amount > 0,
        ctx.user_stake.pending_rewards == 0,
        ctx.user_stake.last_claim_time >= 0,
        now == ctx.user_stake.last_claim_time + SECONDS_PER_YEAR,
        ({
            let q = ctx.user_stake.staked_amount * ctx.stake_pool.apy_of(ctx.user_stake.tier)
                / BASIS_POINTS_DENOMINATOR as int;
            &&& q > 0
            &&& ctx.treasury_vault.amount >= q
            &&& ctx.stake_pool.total_distributed + q <= ctx.stake_pool.emission_cap
            &&& ctx.user_stake.total_rewards_claimed + q <= u64::MAX
        }),
    ensures
        claim_outcome(ctx, now) is Ok,
        claimable(ctx, now) == ctx.user_stake.staked_amount * ctx.stake_pool.apy_of(
            ctx.user_stake.tier,
        ) / BASIS_POINTS_DENOMINATOR as int,
        claim_outcome(ctx, now)->Ok_0.stake_pool.total_distributed
            == ctx.stake_pool.total_distributed + claimable(ctx, now),
        claim_outcome(ctx, now)->Ok_0.user_stake.pending_rewards == 0,
{
    lemma_one_year_accrual(ctx.user_stake, ctx.stake_pool, now);
    lemma_claim_pays_accrued(ctx, now);
}

/// Claims a position's rewards at `now` (see [`claim_outcome`]). On success
/// the records are updated and the result is the number of reward tokens to
/// move from the reward vault to the staker's token account. On failure
/// nothing changes.
pub fn handler(ctx: &mut ClaimRewards, now: i64) -> (r: Result<u64, StakingError>)
    ensures
        match claim_outcome(*old(ctx), now) {
            Ok(next) => r == Ok::<u64, StakingError>(claimable(*old(ctx), now) as u64)
                && *final(ctx) == next,
            Err(e) => r == Err::<u64, StakingError>(e) && *final(ctx) == *old(ctx),
        },
        old(ctx).stake_pool.wf() ==> final(ctx).stake_pool.wf(),
        old(ctx).user_stake.wf() ==> final(ctx).user_stake.wf(),
{
    if let Some(e) = check_vault_accounts(
        &ctx.stake_pool,
        &ctx.stake_pool_key,
        &ctx.stake_pool.treasury_vault,
        StakingError::TreasuryMismatch,
        StakingError::InvalidTreasuryOwner,
        &ctx.staking_mint,
        &ctx.user,
        &ctx.user_token_account,
        &ctx.treasury_vault,
    ) {
        return Err(e);
    }
    if let Some(e) = check_position_binding(&ctx.user_stake, &ctx.user, &ctx.stake_pool_key) {
        return Err(e);
    }
    let stake_pool = &ctx.stake_pool;
    let user_stake = &ctx.user_stake;
    if now <= 0 {
        return Err(StakingError::InvalidTimestamp);
    }
    let newly_accrued = calculate_pending_rewards(user_stake, stake_pool, now)?;
    let total_claimable = match user_stake.pending_rewards.checked_add(newly_accrued) {
        Some(t) => t,
        None => {
            return Err(StakingError::MathOverflow);
        },
    };
    if total_claimable == 0 {
        return Err(StakingError::NoRewardsAvailable);
    }
    if ctx.treasury_vault.amount < total_claimable {
        return Err(StakingError::InsufficientTreasuryFunds);
    }
    let new_total_distributed = match stake_pool.total_distributed.checked_add(total_claimable) {
        Some(t) => t,
        None => {
            return Err(StakingError::MathOverflow);
        },
    };
    if new_total_distributed > stake_pool.emission_cap {
        return Err(StakingError::EmissionCapExceeded);
    }
    let total_rewards_claimed = match user_stake.total_rewards_claimed.checked_add(
        total_claimable,
    ) {
        Some(t) => t,
        None => {
            return Err(StakingError::MathOverflow);
        },
    };

    ctx.user_stake.pending_rewards = 0;
    ctx.user_stake.last_claim_time = now;
    ctx.user_stake.total_rewards_claimed = total_rewards_claimed;
    ctx.stake_pool.total_distributed = new_total_distributed;
    ctx.stake_pool.last_updated = now;
    Ok(total_claimable)
}

} // verus!
