//! Depositing reward tokens into a pool's reward vault. Anyone may fund.

use vstd::prelude::*;

use crate::error::StakingError;
use crate::instructions::binding::{check_vault_accounts, vault_accounts_error};
use crate::pubkey::Pubkey;
use crate::state::stake_pool::StakePool;
use crate::state::token_account::TokenAccount;

verus! {

/// The accounts of a deposit: the funder, the pool, the funder's token
/// account and the pool's reward vault.
#[derive(Clone, Copy, Debug)]
pub struct FundTreasury {
    /// The funder, who signs the operation.
    pub funder: Pubkey,
    /// The pool record's address.
    pub stake_pool_key: Pubkey,
    pub stake_pool: StakePool,
    pub staking_mint: Pubkey,
    /// The funder's token account, which pays the deposit.
    pub funder_token_account: TokenAccount,
    /// The pool's reward vault, which receives it.
    pub treasury_vault: TokenAccount,
}

/// The first mismatch, if any, among the accounts of a deposit.
pub open spec fn fund_accounts_error(ctx: FundTreasury) -> Option<StakingError> {
    vault_accounts_error(
        ctx.stake_pool,
        ctx.stake_pool_key,
        ctx.stake_pool.treasury_vault,
        StakingError::TreasuryMismatch,
        StakingError::InvalidTreasuryOwner,
        ctx.staking_mint,
        ctx.funder,
        ctx.funder_token_account,
        ctx.treasury_vault,
    )
}

/// The records after a deposit of `amount` at `now`: only the pool's
/// last-update time changes.
pub open spec fn fund_treasury_outcome(ctx: FundTreasury, amount: u64, now: i64) -> Result<
    FundTreasury,
    StakingError,
> {
    if fund_accounts_error(ctx) is Some {
        Err(fund_accounts_error(ctx)->Some_0)
    } else if amount == 0 {
        Err(StakingError::ZeroAmount)
    } else {
        Ok(FundTreasury { stake_pool: StakePool { last_updated: now, ..ctx.stake_pool }, ..ctx })
    }
}

/// Deposits `amount` reward tokens (see [`fund_treasury_outcome`]). On
/// success the result is the number of tokens to move from the funder's
/// token account into the reward vault. On failure nothing changes.
pub fn handler(ctx: &mut FundTreasury, amount: u64, now: i64) -> (r: Result<u64, StakingError>)
    ensures
        match fund_treasury_outcome(*old(ctx), amount, now) {
            Ok(next) => r == Ok::<u64, StakingError>(amount) && *final(ctx) == next,
            Err(e) => r == Err::<u64, StakingError>(e) && *final(ctx) == *old(ctx),
        },
        old(ctx).stake_pool.wf() ==> final(ctx).stake_pool.wf(),
{
    if let Some(e) = check_vault_accounts(
        &ctx.stake_pool,
        &ctx.stake_pool_key,
        &ctx.stake_pool.treasury_vault,
        StakingError::TreasuryMismatch,
        StakingError::InvalidTreasuryOwner,
        &ctx.staking_mint,
        &ctx.funder,
        &ctx.funder_token_account,
        &ctx.treasury_vault,
    ) {
        return Err(e);
    }
    if amount == 0 {
        return Err(StakingError::ZeroAmount);
    }
    ctx.stake_pool.last_updated = now;
    Ok(amount)
}

} // verus!
