//! Checks that the accounts handed to an operation are the ones the pool
//! and the caller are bound to.

use vstd::prelude::*;

use crate::error::StakingError;
use crate::pubkey::Pubkey;
use crate::state::stake_pool::StakePool;
use crate::state::token_account::TokenAccount;
use crate::state::user_stake::UserStake;

verus! {

/// The first mismatch, if any, among the accounts of a transfer between a
/// holder's token account and one of the pool's vaults: the vault must be
/// the one the pool records (else `vault_mismatch`), the mint must be the
/// pool's, the holder's account must hold that mint and be the holder's,
/// and the vault must be owned by the pool (else `vault_owner_error`) and
/// hold that mint.
pub open spec fn vault_accounts_error(
    pool: StakePool,
    pool_key: Pubkey,
    expected_vault: Pubkey,
    vault_mismatch: StakingError,
    vault_owner_error: StakingError,
    mint: Pubkey,
    holder: Pubkey,
    holder_account: TokenAccount,
    vault: TokenAccount,
) -> Option<StakingError> {
    if vault.key != expected_vault {
        Some(vault_mismatch)
    } else if mint != pool.staking_mint {
        Some(StakingError::MintMismatch)
    } else if holder_account.mint != mint {
        Some(StakingError::MintMismatch)
    } else if holder_account.owner != holder {
        Some(StakingError::UnauthorizedStakeAccess)
    } else if vault.owner != pool_key {
        Some(vault_owner_error)
    } else if vault.mint != mint {
        Some(StakingError::InvalidTokenAccountMint)
    } else {
        None
    }
}

/// The first mismatch, if any, between a position and the caller and pool
/// it is used with.
pub open spec fn position_binding_error(us: UserStake, user: Pubkey, pool_key: Pubkey) -> Option<
    StakingError,
> {
    if us.owner != user {
        Some(StakingError::InvalidStakeOwner)
    } else if us.stake_pool != pool_key {
        Some(StakingError::StakePoolMismatch)
    } else {
        None
    }
}

pub(crate) fn check_vault_accounts(
    pool: &StakePool,
    pool_key: &Pubkey,
    expected_vault: &Pubkey,
    vault_mismatch: StakingError,
    vault_owner_error: StakingError,
    mint: &Pubkey,
    holder: &Pubkey,
    holder_account: &TokenAccount,
    vault: &TokenAccount,
) -> (r: Option<StakingError>)
    ensures
        r == vault_accounts_error(
            *pool,
            *pool_key,
            *expected_vault,
            vault_mismatch,
            vault_owner_error,
            *mint,
            *holder,
            *holder_account,
            *vault,
        ),
{
    if !(vault.key == *expected_vault) {
        Some(vault_mismatch)
    } else if !(*mint == pool.staking_mint) {
        Some(StakingError::MintMismatch)
    } else if !(holder_account.mint == *mint) {
        Some(StakingError::MintMismatch)
    } else if !(holder_account.owner == *holder) {
        Some(StakingError::UnauthorizedStakeAccess)
    } else if !(vault.owner == *pool_key) {
        Some(vault_owner_error)
    } else if !(vault.mint == *mint) {
        Some(StakingError::InvalidTokenAccountMint)
    } else {
        None
    }
}

pub(crate) fn check_position_binding(us: &UserStake, user: &Pubkey, pool_key: &Pubkey) -> (r:
    Option<StakingError>)
    ensures
        r == position_binding_error(*us, *user, *pool_key),
{
    if !(us.owner == *user) {
        Some(StakingError::InvalidStakeOwner)
    } else if !(us.stake_pool == *pool_key) {
        Some(StakingError::StakePoolMismatch)
    } else {
        None
    }
}

} // verus!
