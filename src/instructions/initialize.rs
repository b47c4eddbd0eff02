//! Creating a pool.

use vstd::prelude::*;

use crate::constants::MAX_APY;
use crate::error::StakingError;
use crate::pubkey::Pubkey;
use crate::state::stake_pool::StakePool;
use crate::state::token_account::TokenAccount;

verus! {

/// The accounts of a pool's creation: its first authority, the pool's
/// address, the staking token and the two vaults, with the derivation bumps
/// of the three addresses.
#[derive(Clone, Copy, Debug)]
pub struct Initialize {
    /// The creator, who becomes the pool's authority.
    pub authority: Pubkey,
    /// The pool record's address.
    pub stake_pool_key: Pubkey,
    pub stake_pool_bump: u8,
    pub staking_mint: Pubkey,
    /// The vault that will hold staked tokens.
    pub staking_vault: TokenAccount,
    pub staking_vault_bump: u8,
    /// The vault that will hold reward tokens.
    pub treasury_vault: TokenAccount,
    pub treasury_vault_bump: u8,
}

/// The new pool, or the first condition that refuses its creation: a zero
/// emission cap, a rate above the ceiling, or a vault that the pool does not
/// own or that holds another token.
pub open spec fn initialize_outcome(
    ctx: Initialize,
    emission_cap: u64,
    flex_apy: u16,
    core_apy: u16,
    prime_apy: u16,
    now: i64,
) -> Result<StakePool, StakingError> {
    if emission_cap == 0 {
        Err(StakingError::ZeroEmissionCap)
    } else if flex_apy > MAX_APY || core_apy > MAX_APY || prime_apy > MAX_APY {
        Err(StakingError::ApyTooHigh)
    } else if ctx.staking_vault.owner != ctx.stake_pool_key {
        Err(StakingError::InvalidVaultOwner)
    } else if ctx.treasury_vault.owner != ctx.stake_pool_key {
        Err(StakingError::InvalidTreasuryOwner)
    } else if ctx.staking_vault.mint != ctx.staking_mint || ctx.treasury_vault.mint
        != ctx.staking_mint {
        Err(StakingError::InvalidTokenAccountMint)
    } else {
        Ok(
            StakePool {
                authority: ctx.authority,
                staking_mint: ctx.staking_mint,
                staking_vault: ctx.staking_vault.key,
                treasury_vault: ctx.treasury_vault.key,
                flex_apy,
                core_apy,
                prime_apy,
                emission_cap,
                total_distributed: 0,
                total_staked: 0,
                staker_count: 0,
                paused: false,
                created_at: now,
                last_updated: now,
                bump: ctx.stake_pool_bump,
                vault_bump: ctx.staking_vault_bump,
                treasury_bump: ctx.treasury_vault_bump,
            },
        )
    }
}

/// Creates a pool with the given emission cap and tier rates (see
/// [`initialize_outcome`]). A created pool satisfies the pool invariant.
pub fn handler(
    ctx: &Initialize,
    emission_cap: u64,
    flex_apy: u16,
    core_apy: u16,
    prime_apy: u16,
    now: i64,
) -> (r: Result<StakePool, StakingError>)
    ensures
        r == initialize_outcome(*ctx, emission_cap, flex_apy, core_apy, prime_apy, now),
        r is Ok ==> r->Ok_0.wf(),
{
    if emission_cap == 0 {
        return Err(StakingError::ZeroEmissionCap);
    }
    if flex_apy > MAX_APY || core_apy > MAX_APY || prime_apy > MAX_APY {
        return Err(StakingError::ApyTooHigh);
    }
    if !(ctx.staking_vault.owner == ctx.stake_pool_key) {
        return Err(StakingError::InvalidVaultOwner);
    }
    if !(ctx.treasury_vault.owner == ctx.stake_pool_key) {
        return Err(StakingError::InvalidTreasuryOwner);
    }
    if !(ctx.staking_vault.mint == ctx.staking_mint) || !(ctx.treasury_vault.mint
        == ctx.staking_mint) {
        return Err(StakingError::InvalidTokenAccountMint);
    }
    Ok(
        StakePool {
            authority: ctx.authority,
            staking_mint: ctx.staking_mint,
            staking_vault: ctx.staking_vault.key,
            treasury_vault: ctx.treasury_vault.key,
            flex_apy,
            core_apy,
            prime_apy,
            emission_cap,
            total_distributed: 0,
            total_staked: 0,
            staker_count: 0,
            paused: false,
            created_at: now,
            last_updated: now,
            bump: ctx.stake_pool_bump,
            vault_bump: ctx.staking_vault_bump,
            treasury_bump: ctx.treasury_vault_bump,
        },
    )
}

} // verus!
