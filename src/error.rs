//! Error conditions of the pool operations.

use vstd::prelude::*;

verus! {

/// Why an operation was refused. An operation that returns one of these has
/// left every record it was given unchanged.
#[derive(Clone, Copy, Debug, PartialEq, Eq, Structural)]
pub enum StakingError {
    // Input validation
    /// Staking operations are currently paused by the administrator.
    StakingPaused,
    /// The tier selector is not one of the three tiers.
    InvalidTier,
    /// An amount of zero was given.
    ZeroAmount,
    /// A rate exceeds the ceiling of 5000 basis points.
    ApyTooHigh,
    /// A new emission cap is below the rewards already distributed.
    InvalidEmissionCap,
    /// An emission cap of zero was given.
    ZeroEmissionCap,
    // State and balances
    /// The position holds less than the amount asked for.
    InsufficientStakedBalance,
    /// There is nothing to claim.
    NoRewardsAvailable,
    /// The reward vault holds less than the claim.
    InsufficientTreasuryFunds,
    /// Paying the claim would exceed the emission cap.
    EmissionCapExceeded,
    /// The position is not active.
    NoActiveStake,
    /// A different tier was asked for while the position is active.
    CannotChangeTier,
    /// The position record was never initialised.
    StakeNotInitialized,
    // Time and locks
    /// The position's lock period has not ended.
    LockPeriodNotEnded,
    /// A timestamp is not positive, or a stored one is negative.
    InvalidTimestamp,
    /// A time difference came out negative.
    NegativeTimeDuration,
    // Arithmetic
    /// A sum or product does not fit its type.
    MathOverflow,
    /// A difference would go below zero.
    MathUnderflow,
    /// A division by zero.
    DivisionByZero,
    /// A result does not fit the 64-bit result type.
    ConversionOverflow,
    // Authorization
    /// The caller is not the pool's authority, or the new authority is null.
    Unauthorized,
    /// The caller is not the position's owner.
    InvalidStakeOwner,
    /// A token account given for the caller belongs to someone else.
    UnauthorizedStakeAccess,
    // Account binding
    /// The token mint is not the pool's staking mint.
    MintMismatch,
    /// The staking vault is not the pool's staking vault.
    VaultMismatch,
    /// The reward vault is not the pool's reward vault.
    TreasuryMismatch,
    /// The pool record is not the one expected.
    PoolMismatch,
    /// The position belongs to another pool.
    StakePoolMismatch,
    /// The staking vault is not owned by the pool.
    InvalidVaultOwner,
    /// The reward vault is not owned by the pool.
    InvalidTreasuryOwner,
    /// An address is not the one its derivation gives.
    InvalidPDA,
    /// A vault holds tokens of another mint.
    InvalidTokenAccountMint,
    /// An address derivation bump does not match.
    BumpMismatch,
}

} // verus!
