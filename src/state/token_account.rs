//! What the pool logic reads of a token account.

use vstd::prelude::*;

use crate::pubkey::Pubkey;

verus! {

/// A token account: its address, the token it holds, who controls it and
/// its balance.
#[derive(Clone, Copy, Debug)]
pub struct TokenAccount {
    /// The account's address.
    pub key: Pubkey,
    /// The token the account holds.
    pub mint: Pubkey,
    /// The identity that controls the account.
    pub owner: Pubkey,
    /// The balance.
    pub amount: u64,
}

} // verus!
