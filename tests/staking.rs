use nova_staking::constants::tier::{CORE, FLEX, PRIME};
use nova_staking::constants::{
    CORE_LOCK_PERIOD, DEFAULT_CORE_APY, DEFAULT_FLEX_APY, DEFAULT_PRIME_APY, MAX_APY,
    PRIME_LOCK_PERIOD, SECONDS_PER_YEAR,
};
use nova_staking::error::StakingError;
use nova_staking::instructions::admin::{
    adjust_apy_handler, set_paused_handler, transfer_authority_handler,
    update_emission_cap_handler, AdminControl,
};
use nova_staking::instructions::claim_rewards::{self, ClaimRewards};
use nova_staking::instructions::fund_treasury::{self, FundTreasury};
use nova_staking::instructions::initialize::{self, Initialize};
use nova_staking::instructions::stake::{self, calculate_pending_rewards, Stake};
use nova_staking::instructions::unstake::{self, Unstake};
use nova_staking::pubkey::Pubkey;
use nova_staking::state::admin_control;
use nova_staking::state::stake_pool::StakePool;
use nova_staking::state::token_account::TokenAccount;
use nova_staking::state::user_stake::UserStake;

const YEAR: i64 = 365 * 86_400;
const T0: i64 = 1_000_000;

fn key(n: u8) -> Pubkey {
    Pubkey::new_from_array([n; 32])
}

fn admin() -> Pubkey {
    key(1)
}
fn pool_key() -> Pubkey {
    key(2)
}
fn mint() -> Pubkey {
    key(3)
}
fn vault_key() -> Pubkey {
    key(4)
}
fn treasury_key() -> Pubkey {
    key(5)
}
fn alice() -> Pubkey {
    key(6)
}
fn alice_tokens_key() -> Pubkey {
    key(7)
}

fn init_ctx() -> Initialize {
    Initialize {
        authority: admin(),
        stake_pool_key: pool_key(),
        stake_pool_bump: 255,
        staking_mint: mint(),
        staking_vault: TokenAccount { key: vault_key(), mint: mint(), owner: pool_key(), amount: 0 },
        staking_vault_bump: 254,
        treasury_vault: TokenAccount {
            key: treasury_key(),
            mint: mint(),
            owner: pool_key(),
            amount: 0,
        },
        treasury_vault_bump: 253,
    }
}

fn new_pool(cap: u64) -> StakePool {
    initialize::handler(&init_ctx(), cap, DEFAULT_FLEX_APY, DEFAULT_CORE_APY, DEFAULT_PRIME_APY, T0)
        .unwrap()
}

fn alice_tokens() -> TokenAccount {
    TokenAccount { key: alice_tokens_key(), mint: mint(), owner: alice(), amount: 10_000_000 }
}

fn stake_ctx(pool: StakePool, position: UserStake) -> Stake {
    Stake {
        user: alice(),
        stake_pool_key: pool_key(),
        stake_pool: pool,
        user_stake: position,
        user_stake_bump: 250,
        staking_mint: mint(),
        user_token_account: alice_tokens(),
        staking_vault: TokenAccount { key: vault_key(), mint: mint(), owner: pool_key(), amount: 0 },
    }
}

fn unstake_ctx(pool: StakePool, position: UserStake) -> Unstake {
    Unstake {
        user: alice(),
        stake_pool_key: pool_key(),
        stake_pool: pool,
        user_stake: position,
        staking_mint: mint(),
        user_token_account: alice_tokens(),
        staking_vault: TokenAccount { key: vault_key(), mint: mint(), owner: pool_key(), amount: 0 },
    }
}

fn claim_ctx(pool: StakePool, position: UserStake, treasury_balance: u64) -> ClaimRewards {
    ClaimRewards {
        user: alice(),
        stake_pool_key: pool_key(),
        stake_pool: pool,
        user_stake: position,
        staking_mint: mint(),
        user_token_account: alice_tokens(),
        treasury_vault: TokenAccount {
            key: treasury_key(),
            mint: mint(),
            owner: pool_key(),
            amount: treasury_balance,
        },
    }
}

fn fund_ctx(pool: StakePool) -> FundTreasury {
    FundTreasury {
        funder: alice(),
        stake_pool_key: pool_key(),
        stake_pool: pool,
        staking_mint: mint(),
        funder_token_account: alice_tokens(),
        treasury_vault: TokenAccount {
            key: treasury_key(),
            mint: mint(),
            owner: pool_key(),
            amount: 0,
        },
    }
}

fn admin_ctx(pool: StakePool) -> AdminControl {
    AdminControl { authority: admin(), stake_pool: pool }
}

/// Stakes `amount` into `tier` at `now` on a fresh position of a fresh pool.
fn staked(cap: u64, amount: u64, tier: u8, now: i64) -> (StakePool, UserStake) {
    let mut ctx = stake_ctx(new_pool(cap), UserStake::default());
    assert_eq!(stake::handler(&mut ctx, amount, tier, now), Ok(amount));
    (ctx.stake_pool, ctx.user_stake)
}

// ---------- accrual engine ----------

#[test]
fn one_year_flex_accrues_four_percent() {
    let pool = new_pool(1_000_000_000);
    let position = UserStake {
        owner: alice(),
        stake_pool: pool_key(),
        staked_amount: 1_000_000,
        tier: FLEX,
        is_active: true,
        ..UserStake::default()
    };
    assert_eq!(calculate_pending_rewards(&position, &pool, YEAR), Ok(40_000));
}

#[test]
fn one_year_through_stake_and_claim_pays_forty_thousand() {
    let (pool, position) = staked(1_000_000_000, 1_000_000, FLEX, T0);
    assert_eq!(calculate_pending_rewards(&position, &pool, T0 + YEAR), Ok(40_000));
    let mut ctx = claim_ctx(pool, position, 1_000_000);
    assert_eq!(claim_rewards::handler(&mut ctx, T0 + YEAR), Ok(40_000));
    assert_eq!(ctx.stake_pool.total_distributed, 40_000);
    assert_eq!(ctx.user_stake.total_rewards_claimed, 40_000);
    assert_eq!(ctx.user_stake.pending_rewards, 0);
}

#[test]
fn core_and_prime_rates_over_half_a_year() {
    let (pool, position) = staked(1_000_000_000, 1_000_000, CORE, T0);
    assert_eq!(calculate_pending_rewards(&position, &pool, T0 + YEAR / 2), Ok(50_000));
    let (pool, position) = staked(1_000_000_000, 1_000_000, PRIME, T0);
    assert_eq!(calculate_pending_rewards(&position, &pool, T0 + YEAR / 2), Ok(70_000));
}

#[test]
fn accrual_rounds_down() {
    let (pool, position) = staked(1_000_000_000, 1_000_000, FLEX, T0);
    // 1_000_000 * 400 * 1000 / 315_360_000_000 = 1.268...
    assert_eq!(calculate_pending_rewards(&position, &pool, T0 + 1_000), Ok(1));
    assert_eq!(calculate_pending_rewards(&position, &pool, T0 + 1), Ok(0));
}

#[test]
fn accrual_is_zero_for_regressed_or_equal_clock() {
    let (pool, position) = staked(1_000_000_000, 1_000_000, FLEX, T0);
    assert_eq!(calculate_pending_rewards(&position, &pool, T0), Ok(0));
    assert_eq!(calculate_pending_rewards(&position, &pool, T0 - 500), Ok(0));
}

#[test]
fn accrual_is_zero_for_inactive_or_zero_rate() {
    let pool = new_pool(1_000_000_000);
    assert_eq!(calculate_pending_rewards(&UserStake::default(), &pool, T0 + YEAR), Ok(0));
    let (pool, position) = staked(1_000_000_000, 1_000_000, FLEX, T0);
    let mut admin = admin_ctx(pool);
    assert_eq!(adjust_apy_handler(&mut admin, 0, 1000, 1400, T0), Ok(()));
    assert_eq!(calculate_pending_rewards(&position, &admin.stake_pool, T0 + YEAR), Ok(0));
}

#[test]
fn accrual_is_zero_for_unknown_tier() {
    let (pool, mut position) = staked(1_000_000_000, 1_000_000, FLEX, T0);
    position.tier = 7;
    assert_eq!(calculate_pending_rewards(&position, &pool, T0 + YEAR), Ok(0));
}

#[test]
fn accrual_refuses_negative_stored_time_only() {
    let (pool, position) = staked(1_000_000_000, 1_000_000, FLEX, T0);
    // A clock earlier than the last accrual yields nothing, even below zero.
    assert_eq!(calculate_pending_rewards(&position, &pool, -1), Ok(0));
    let mut back = position;
    back.last_claim_time = -5;
    assert_eq!(
        calculate_pending_rewards(&back, &pool, T0),
        Err(StakingError::InvalidTimestamp)
    );
}

#[test]
fn accrual_past_u64_is_a_conversion_error() {
    let pool = new_pool(1_000_000_000);
    let mut position = UserStake {
        owner: alice(),
        stake_pool: pool_key(),
        staked_amount: u64::MAX,
        tier: PRIME,
        is_active: true,
        ..UserStake::default()
    };
    // u64::MAX * 1400 * i64::MAX does not fit 128 bits: the reward is past u64.
    assert_eq!(
        calculate_pending_rewards(&position, &pool, i64::MAX),
        Err(StakingError::ConversionOverflow)
    );
    // Ten years of u64::MAX at 14% does not fit 64 bits.
    assert_eq!(
        calculate_pending_rewards(&position, &pool, 10 * YEAR),
        Err(StakingError::ConversionOverflow)
    );
    position.staked_amount = 1_000_000;
    assert_eq!(calculate_pending_rewards(&position, &pool, 10 * YEAR), Ok(1_400_000));
}

#[test]
fn accrual_is_monotonic_in_time() {
    let (pool, position) = staked(1_000_000_000, 123_456_789, CORE, T0);
    let mut last = 0u64;
    for step in 0..50i64 {
        let now = T0 + step * 997_331;
        let r = calculate_pending_rewards(&position, &pool, now).unwrap();
        assert!(r >= last);
        last = r;
    }
}

// ---------- stake ----------

#[test]
fn first_stake_opens_position() {
    let (pool, position) = staked(1_000_000_000, 500, CORE, T0);
    assert!(position.is_active);
    assert_eq!(position.staked_amount, 500);
    assert_eq!(position.owner, alice());
    assert_eq!(position.stake_pool, pool_key());
    assert_eq!(position.tier, CORE);
    assert_eq!(position.stake_start_time, T0);
    assert_eq!(position.last_claim_time, T0);
    assert_eq!(position.bump, 250);
    assert_eq!(pool.total_staked, 500);
    assert_eq!(pool.staker_count, 1);
    assert_eq!(pool.last_updated, T0);
}

#[test]
fn second_stake_flushes_accrual_into_pending() {
    let (pool, position) = staked(1_000_000_000, 1_000_000, FLEX, T0);
    let mut ctx = stake_ctx(pool, position);
    assert_eq!(stake::handler(&mut ctx, 1_000_000, FLEX, T0 + YEAR), Ok(1_000_000));
    assert_eq!(ctx.user_stake.pending_rewards, 40_000);
    assert_eq!(ctx.user_stake.last_claim_time, T0 + YEAR);
    assert_eq!(ctx.user_stake.stake_start_time, T0);
    assert_eq!(ctx.user_stake.staked_amount, 2_000_000);
    assert_eq!(ctx.stake_pool.total_staked, 2_000_000);
    assert_eq!(ctx.stake_pool.staker_count, 1);
}

#[test]
fn stake_refuses_when_paused() {
    let mut admin = admin_ctx(new_pool(1_000));
    assert_eq!(set_paused_handler(&mut admin, true, T0), Ok(()));
    let mut ctx = stake_ctx(admin.stake_pool, UserStake::default());
    let before = ctx;
    assert_eq!(stake::handler(&mut ctx, 10, FLEX, T0), Err(StakingError::StakingPaused));
    assert_eq!(ctx.stake_pool.total_staked, before.stake_pool.total_staked);
    assert!(!ctx.user_stake.is_active);
}

#[test]
fn stake_refuses_zero_amount() {
    let mut ctx = stake_ctx(new_pool(1_000), UserStake::default());
    assert_eq!(stake::handler(&mut ctx, 0, FLEX, T0), Err(StakingError::ZeroAmount));
}

#[test]
fn stake_refuses_unknown_tier() {
    let mut ctx = stake_ctx(new_pool(1_000), UserStake::default());
    assert_eq!(stake::handler(&mut ctx, 10, 3, T0), Err(StakingError::InvalidTier));
    assert_eq!(ctx.stake_pool.staker_count, 0);
}

#[test]
fn stake_refuses_tier_change_while_active() {
    let (pool, position) = staked(1_000, 10, FLEX, T0);
    let mut ctx = stake_ctx(pool, position);
    assert_eq!(stake::handler(&mut ctx, 10, PRIME, T0 + 5), Err(StakingError::CannotChangeTier));
    assert_eq!(ctx.user_stake.staked_amount, 10);
}

#[test]
fn stake_refuses_non_positive_time() {
    let mut ctx = stake_ctx(new_pool(1_000), UserStake::default());
    assert_eq!(stake::handler(&mut ctx, 10, FLEX, 0), Err(StakingError::InvalidTimestamp));
}

#[test]
fn stake_refuses_staked_amount_overflow() {
    let (pool, position) = staked(1_000, u64::MAX, FLEX, T0);
    let mut ctx = stake_ctx(pool, position);
    assert_eq!(stake::handler(&mut ctx, 1, FLEX, T0), Err(StakingError::MathOverflow));
    assert_eq!(ctx.user_stake.staked_amount, u64::MAX);
}

#[test]
fn stake_refuses_wrong_accounts() {
    let mut ctx = stake_ctx(new_pool(1_000), UserStake::default());
    ctx.staking_mint = key(99);
    assert_eq!(stake::handler(&mut ctx, 10, FLEX, T0), Err(StakingError::MintMismatch));

    let mut ctx = stake_ctx(new_pool(1_000), UserStake::default());
    ctx.staking_vault.key = key(99);
    assert_eq!(stake::handler(&mut ctx, 10, FLEX, T0), Err(StakingError::VaultMismatch));

    let mut ctx = stake_ctx(new_pool(1_000), UserStake::default());
    ctx.staking_vault.owner = key(99);
    assert_eq!(stake::handler(&mut ctx, 10, FLEX, T0), Err(StakingError::InvalidVaultOwner));

    let mut ctx = stake_ctx(new_pool(1_000), UserStake::default());
    ctx.staking_vault.mint = key(99);
    assert_eq!(stake::handler(&mut ctx, 10, FLEX, T0), Err(StakingError::InvalidTokenAccountMint));

    let mut ctx = stake_ctx(new_pool(1_000), UserStake::default());
    ctx.user_token_account.owner = key(99);
    assert_eq!(stake::handler(&mut ctx, 10, FLEX, T0), Err(StakingError::UnauthorizedStakeAccess));
}

#[test]
fn stake_refuses_someone_elses_position() {
    let (pool, position) = staked(1_000, 10, FLEX, T0);
    let mut ctx = stake_ctx(pool, position);
    ctx.user = key(42);
    ctx.user_token_account.owner = key(42);
    assert_eq!(stake::handler(&mut ctx, 10, FLEX, T0), Err(StakingError::InvalidStakeOwner));
    let mut ctx = stake_ctx(pool, position);
    ctx.user_stake.stake_pool = key(43);
    assert_eq!(stake::handler(&mut ctx, 10, FLEX, T0), Err(StakingError::StakePoolMismatch));
}

#[test]
fn restake_after_full_unstake_reopens_and_keeps_pending() {
    let (pool, position) = staked(1_000_000_000, 1_000_000, FLEX, T0);
    let mut u = unstake_ctx(pool, position);
    assert_eq!(unstake::handler(&mut u, 1_000_000, T0 + YEAR), Ok(1_000_000));
    assert!(!u.user_stake.is_active);
    assert_eq!(u.user_stake.pending_rewards, 40_000);
    assert_eq!(u.stake_pool.staker_count, 0);
    let mut s = stake_ctx(u.stake_pool, u.user_stake);
    assert_eq!(stake::handler(&mut s, 7, PRIME, T0 + 2 * YEAR), Ok(7));
    assert!(s.user_stake.is_active);
    assert_eq!(s.user_stake.tier, PRIME);
    assert_eq!(s.user_stake.pending_rewards, 40_000);
    assert_eq!(s.user_stake.stake_start_time, T0 + 2 * YEAR);
    assert_eq!(s.stake_pool.staker_count, 1);
}

// ---------- unstake ----------

#[test]
fn core_unstake_waits_for_lock() {
    let (pool, position) = staked(1_000_000_000, 1_000, CORE, T0);
    let mut ctx = unstake_ctx(pool, position);
    assert_eq!(
        unstake::handler(&mut ctx, 1_000, T0 + CORE_LOCK_PERIOD - 1),
        Err(StakingError::LockPeriodNotEnded)
    );
    assert_eq!(ctx.user_stake.staked_amount, 1_000);
    assert_eq!(ctx.stake_pool.total_staked, 1_000);
    assert_eq!(unstake::handler(&mut ctx, 1_000, T0 + CORE_LOCK_PERIOD), Ok(1_000));
    assert_eq!(ctx.user_stake.staked_amount, 0);
    assert!(!ctx.user_stake.is_active);
    assert_eq!(ctx.stake_pool.total_staked, 0);
    assert_eq!(ctx.stake_pool.staker_count, 0);
}

#[test]
fn flex_unstakes_at_once_partially() {
    let (pool, position) = staked(1_000_000_000, 1_000, FLEX, T0);
    let mut ctx = unstake_ctx(pool, position);
    assert_eq!(unstake::handler(&mut ctx, 400, T0 + 1), Ok(400));
    assert_eq!(ctx.user_stake.staked_amount, 600);
    assert!(ctx.user_stake.is_active);
    assert_eq!(ctx.stake_pool.staker_count, 1);
    assert_eq!(ctx.stake_pool.total_staked, 600);
}

#[test]
fn unstake_refusals() {
    let (pool, position) = staked(1_000_000_000, 1_000, FLEX, T0);
    let mut ctx = unstake_ctx(pool, position);
    assert_eq!(unstake::handler(&mut ctx, 0, T0 + 1), Err(StakingError::ZeroAmount));
    assert_eq!(
        unstake::handler(&mut ctx, 1_001, T0 + 1),
        Err(StakingError::InsufficientStakedBalance)
    );
    assert_eq!(unstake::handler(&mut ctx, 1, 0), Err(StakingError::InvalidTimestamp));
    let mut closed = unstake_ctx(pool, UserStake { is_active: false, staked_amount: 0, ..position });
    assert_eq!(unstake::handler(&mut closed, 1, T0 + 1), Err(StakingError::NoActiveStake));
    let mut other = unstake_ctx(pool, position);
    other.user = key(42);
    other.user_token_account.owner = key(42);
    assert_eq!(unstake::handler(&mut other, 1, T0 + 1), Err(StakingError::InvalidStakeOwner));
}

#[test]
fn prime_lock_and_remaining_time() {
    let (_, position) = staked(1_000, 10, PRIME, T0);
    assert_eq!(position.get_lock_period(), PRIME_LOCK_PERIOD);
    assert_eq!(position.lock_end_time(), T0 + PRIME_LOCK_PERIOD);
    assert_eq!(position.remaining_lock_time(T0 + 100), PRIME_LOCK_PERIOD - 100);
    assert_eq!(position.remaining_lock_time(T0 + PRIME_LOCK_PERIOD + 1), 0);
    assert!(!position.is_lock_ended(T0 + PRIME_LOCK_PERIOD - 1));
    assert!(position.is_lock_ended(T0 + PRIME_LOCK_PERIOD));
}

#[test]
fn lock_end_saturates() {
    let position = UserStake { tier: CORE, stake_start_time: i64::MAX - 5, ..UserStake::default() };
    assert_eq!(position.lock_end_time(), i64::MAX);
    assert!(!position.is_lock_ended(i64::MAX - 1));
    assert!(position.is_lock_ended(i64::MAX));
    assert_eq!(position.remaining_lock_time(i64::MIN), i64::MAX);
}

#[test]
fn flex_and_unknown_tiers_have_no_lock() {
    let flex = UserStake { tier: FLEX, stake_start_time: 500, ..UserStake::default() };
    assert!(flex.is_lock_ended(0));
    assert_eq!(flex.get_lock_period(), 0);
    let odd = UserStake { tier: 9, stake_start_time: 500, ..UserStake::default() };
    assert_eq!(odd.get_lock_period(), 0);
    assert!(odd.is_lock_ended(-100));
    assert_eq!(odd.remaining_lock_time(400), 100);
    assert_eq!(CORE_LOCK_PERIOD, 90 * 86_400);
}

// ---------- claim ----------

#[test]
fn claim_past_cap_fails_and_changes_nothing() {
    let (pool, position) = staked(30_000, 1_000_000, FLEX, T0);
    let mut ctx = claim_ctx(pool, position, 1_000_000);
    assert_eq!(
        claim_rewards::handler(&mut ctx, T0 + YEAR),
        Err(StakingError::EmissionCapExceeded)
    );
    assert_eq!(ctx.stake_pool.total_distributed, 0);
    assert_eq!(ctx.user_stake.pending_rewards, 0);
    assert_eq!(ctx.user_stake.last_claim_time, T0);
}

#[test]
fn claim_past_cap_with_pending_fails_and_keeps_pending() {
    let (pool, position) = staked(30_000, 1_000_000, FLEX, T0);
    let mut s = stake_ctx(pool, position);
    assert_eq!(stake::handler(&mut s, 1, FLEX, T0 + YEAR), Ok(1));
    assert_eq!(s.user_stake.pending_rewards, 40_000);
    let mut ctx = claim_ctx(s.stake_pool, s.user_stake, 1_000_000);
    assert_eq!(
        claim_rewards::handler(&mut ctx, T0 + YEAR),
        Err(StakingError::EmissionCapExceeded)
    );
    assert_eq!(ctx.stake_pool.total_distributed, 0);
    assert_eq!(ctx.user_stake.pending_rewards, 40_000);
}

#[test]
fn claim_up_to_exact_cap_succeeds() {
    let (pool, position) = staked(40_000, 1_000_000, FLEX, T0);
    let mut ctx = claim_ctx(pool, position, 40_000);
    assert_eq!(claim_rewards::handler(&mut ctx, T0 + YEAR), Ok(40_000));
    assert_eq!(ctx.stake_pool.total_distributed, 40_000);
    assert_eq!(ctx.stake_pool.remaining_emission_capacity(), 0);
}

#[test]
fn claim_twice_at_same_time_pays_once() {
    let (pool, position) = staked(1_000_000_000, 1_000_000, FLEX, T0);
    let mut ctx = claim_ctx(pool, position, 1_000_000);
    assert_eq!(claim_rewards::handler(&mut ctx, T0 + YEAR), Ok(40_000));
    assert_eq!(calculate_pending_rewards(&ctx.user_stake, &ctx.stake_pool, T0 + YEAR), Ok(0));
    assert_eq!(
        claim_rewards::handler(&mut ctx, T0 + YEAR),
        Err(StakingError::NoRewardsAvailable)
    );
    assert_eq!(ctx.stake_pool.total_distributed, 40_000);
}

#[test]
fn claim_refuses_short_treasury() {
    let (pool, position) = staked(1_000_000_000, 1_000_000, FLEX, T0);
    let mut ctx = claim_ctx(pool, position, 39_999);
    assert_eq!(
        claim_rewards::handler(&mut ctx, T0 + YEAR),
        Err(StakingError::InsufficientTreasuryFunds)
    );
    assert_eq!(ctx.user_stake.last_claim_time, T0);
}

#[test]
fn claim_refuses_wrong_treasury() {
    let (pool, position) = staked(1_000_000_000, 1_000_000, FLEX, T0);
    let mut ctx = claim_ctx(pool, position, 1_000_000);
    ctx.treasury_vault.key = key(99);
    assert_eq!(claim_rewards::handler(&mut ctx, T0 + YEAR), Err(StakingError::TreasuryMismatch));
    let mut ctx = claim_ctx(pool, position, 1_000_000);
    ctx.treasury_vault.owner = key(99);
    assert_eq!(
        claim_rewards::handler(&mut ctx, T0 + YEAR),
        Err(StakingError::InvalidTreasuryOwner)
    );
}

#[test]
fn claim_remains_available_while_paused() {
    let (pool, position) = staked(1_000_000_000, 1_000_000, FLEX, T0);
    let mut admin = admin_ctx(pool);
    assert_eq!(set_paused_handler(&mut admin, true, T0 + 1), Ok(()));
    assert!(!admin.stake_pool.is_accepting_stakes());
    let mut ctx = claim_ctx(admin.stake_pool, position, 1_000_000);
    assert_eq!(claim_rewards::handler(&mut ctx, T0 + YEAR), Ok(40_000));
    let mut u = unstake_ctx(ctx.stake_pool, ctx.user_stake);
    assert_eq!(unstake::handler(&mut u, 1_000_000, T0 + YEAR), Ok(1_000_000));
}

// ---------- admin ----------

#[test]
fn lowering_cap_below_distributed_fails_exact_succeeds() {
    let (pool, position) = staked(1_000_000, 1_000_000, FLEX, T0);
    let mut ctx = claim_ctx(pool, position, 1_000_000);
    assert_eq!(claim_rewards::handler(&mut ctx, T0 + YEAR), Ok(40_000));
    let mut admin = admin_ctx(ctx.stake_pool);
    assert_eq!(
        update_emission_cap_handler(&mut admin, 39_999, T0 + YEAR),
        Err(StakingError::InvalidEmissionCap)
    );
    assert_eq!(admin.stake_pool.emission_cap, 1_000_000);
    assert_eq!(update_emission_cap_handler(&mut admin, 40_000, T0 + YEAR), Ok(()));
    assert_eq!(admin.stake_pool.emission_cap, 40_000);
    assert_eq!(
        update_emission_cap_handler(&mut admin, 0, T0 + YEAR),
        Err(StakingError::ZeroEmissionCap)
    );
}

#[test]
fn admin_operations_require_the_authority() {
    let pool = new_pool(1_000);
    let mut ctx = AdminControl { authority: key(77), stake_pool: pool };
    assert_eq!(set_paused_handler(&mut ctx, true, T0), Err(StakingError::Unauthorized));
    assert_eq!(adjust_apy_handler(&mut ctx, 1, 2, 3, T0), Err(StakingError::Unauthorized));
    assert_eq!(update_emission_cap_handler(&mut ctx, 5, T0), Err(StakingError::Unauthorized));
    assert_eq!(transfer_authority_handler(&mut ctx, key(77), T0), Err(StakingError::Unauthorized));
    assert!(!ctx.stake_pool.paused);
    assert_eq!(ctx.stake_pool.authority, admin());
}

#[test]
fn adjust_rates_within_ceiling() {
    let mut ctx = admin_ctx(new_pool(1_000));
    assert_eq!(
        adjust_apy_handler(&mut ctx, MAX_APY + 1, 10, 10, T0),
        Err(StakingError::ApyTooHigh)
    );
    assert_eq!(ctx.stake_pool.get_apy_for_tier(FLEX), DEFAULT_FLEX_APY);
    assert_eq!(adjust_apy_handler(&mut ctx, 100, 200, MAX_APY, T0 + 3), Ok(()));
    assert_eq!(ctx.stake_pool.get_apy_for_tier(FLEX), 100);
    assert_eq!(ctx.stake_pool.get_apy_for_tier(CORE), 200);
    assert_eq!(ctx.stake_pool.get_apy_for_tier(PRIME), MAX_APY);
    assert_eq!(ctx.stake_pool.get_apy_for_tier(3), 0);
    assert_eq!(ctx.stake_pool.last_updated, T0 + 3);
}

#[test]
fn rate_change_leaves_pending_untouched() {
    let (pool, position) = staked(1_000_000_000, 1_000_000, FLEX, T0);
    let mut s = stake_ctx(pool, position);
    assert_eq!(stake::handler(&mut s, 1, FLEX, T0 + YEAR), Ok(1));
    let mut admin = admin_ctx(s.stake_pool);
    assert_eq!(adjust_apy_handler(&mut admin, 0, 0, 0, T0 + YEAR), Ok(()));
    let mut ctx = claim_ctx(admin.stake_pool, s.user_stake, 1_000_000);
    assert_eq!(claim_rewards::handler(&mut ctx, T0 + 2 * YEAR), Ok(40_000));
}

#[test]
fn transfer_authority_to_new_key() {
    let mut ctx = admin_ctx(new_pool(1_000));
    assert_eq!(
        transfer_authority_handler(&mut ctx, Pubkey::default(), T0),
        Err(StakingError::Unauthorized)
    );
    assert_eq!(transfer_authority_handler(&mut ctx, key(88), T0), Ok(()));
    assert_eq!(ctx.stake_pool.authority, key(88));
    assert_eq!(set_paused_handler(&mut ctx, true, T0), Err(StakingError::Unauthorized));
    ctx.authority = key(88);
    assert_eq!(set_paused_handler(&mut ctx, true, T0), Ok(()));
    assert!(ctx.stake_pool.paused);
}

// ---------- initialize and funding ----------

#[test]
fn initialize_sets_every_field() {
    let pool = new_pool(5_000);
    assert_eq!(pool.authority, admin());
    assert_eq!(pool.staking_mint, mint());
    assert_eq!(pool.staking_vault, vault_key());
    assert_eq!(pool.treasury_vault, treasury_key());
    assert_eq!(pool.flex_apy, 400);
    assert_eq!(pool.core_apy, 1000);
    assert_eq!(pool.prime_apy, 1400);
    assert_eq!(pool.emission_cap, 5_000);
    assert_eq!(pool.total_distributed, 0);
    assert_eq!(pool.total_staked, 0);
    assert_eq!(pool.staker_count, 0);
    assert!(!pool.paused);
    assert_eq!(pool.created_at, T0);
    assert_eq!(pool.last_updated, T0);
    assert_eq!((pool.bump, pool.vault_bump, pool.treasury_bump), (255, 254, 253));
    assert_eq!(pool.remaining_emission_capacity(), 5_000);
}

#[test]
fn initialize_refusals() {
    let ctx = init_ctx();
    assert_eq!(
        initialize::handler(&ctx, 0, 1, 1, 1, T0).unwrap_err(),
        StakingError::ZeroEmissionCap
    );
    assert_eq!(
        initialize::handler(&ctx, 1, 1, MAX_APY + 1, 1, T0).unwrap_err(),
        StakingError::ApyTooHigh
    );
    let mut bad = init_ctx();
    bad.staking_vault.owner = key(99);
    assert_eq!(
        initialize::handler(&bad, 1, 1, 1, 1, T0).unwrap_err(),
        StakingError::InvalidVaultOwner
    );
    let mut bad = init_ctx();
    bad.treasury_vault.owner = key(99);
    assert_eq!(
        initialize::handler(&bad, 1, 1, 1, 1, T0).unwrap_err(),
        StakingError::InvalidTreasuryOwner
    );
    let mut bad = init_ctx();
    bad.treasury_vault.mint = key(99);
    assert_eq!(
        initialize::handler(&bad, 1, 1, 1, 1, T0).unwrap_err(),
        StakingError::InvalidTokenAccountMint
    );
}

#[test]
fn fund_treasury_touches_only_timestamp() {
    let pool = new_pool(1_000);
    let mut ctx = fund_ctx(pool);
    assert_eq!(fund_treasury::handler(&mut ctx, 0, T0 + 9), Err(StakingError::ZeroAmount));
    assert_eq!(ctx.stake_pool.last_updated, T0);
    assert_eq!(fund_treasury::handler(&mut ctx, 500, T0 + 9), Ok(500));
    assert_eq!(ctx.stake_pool.last_updated, T0 + 9);
    assert_eq!(ctx.stake_pool.total_distributed, 0);
    assert_eq!(ctx.stake_pool.emission_cap, 1_000);
    let mut wrong = fund_ctx(pool);
    wrong.funder_token_account.mint = key(99);
    assert_eq!(fund_treasury::handler(&mut wrong, 5, T0), Err(StakingError::MintMismatch));
}

// ---------- records ----------

#[test]
fn pubkey_equality_and_null() {
    assert_eq!(key(3), key(3));
    assert_ne!(key(3), key(4));
    let mut b = [0u8; 32];
    b[31] = 1;
    assert_ne!(Pubkey::new_from_array(b), Pubkey::default());
    assert!(Pubkey::default().is_null_key());
    assert!(!Pubkey::new_from_array(b).is_null_key());
    assert_eq!(key(5).to_bytes(), [5u8; 32]);
}

#[test]
fn default_records_are_blank() {
    let control = admin_control::AdminControl::default();
    assert!(control.admin.is_null_key());
    assert!(!control.paused);
    let position = UserStake::default();
    assert!(position.owner.is_null_key());
    assert!(!position.is_active);
    assert_eq!(position.staked_amount, 0);
}

#[test]
fn position_invariant_through_a_lifecycle() {
    let (pool, position) = staked(1_000_000_000, 300, FLEX, T0);
    assert_eq!(position.staked_amount == 0, !position.is_active);
    let mut u = unstake_ctx(pool, position);
    for step in 1..=3i64 {
        assert_eq!(unstake::handler(&mut u, 100, T0 + step), Ok(100));
        assert_eq!(u.user_stake.staked_amount == 0, !u.user_stake.is_active);
    }
    assert!(!u.user_stake.is_active);
    assert_eq!(unstake::handler(&mut u, 1, T0 + 9), Err(StakingError::NoActiveStake));
}

#[test]
fn cap_bounds_distribution_over_many_claims() {
    let (pool, position) = staked(100_000, 1_000_000, PRIME, T0);
    let mut ctx = claim_ctx(pool, position, u64::MAX);
    let mut now = T0;
    for _ in 0..40 {
        now += YEAR / 12;
        let _ = claim_rewards::handler(&mut ctx, now);
        assert!(ctx.stake_pool.total_distributed <= ctx.stake_pool.emission_cap);
    }
    assert!(ctx.stake_pool.total_distributed > 0);
    assert_eq!(SECONDS_PER_YEAR, YEAR as u64);
}

#[test]
fn pool_totals_track_two_positions() {
    let bob = key(60);
    let bob_tokens = TokenAccount { key: key(61), mint: mint(), owner: bob, amount: 1_000 };
    let (pool, alice_position) = staked(1_000_000_000, 700, FLEX, T0);
    let mut s = stake_ctx(pool, UserStake::default());
    s.user = bob;
    s.user_token_account = bob_tokens;
    assert_eq!(stake::handler(&mut s, 300, CORE, T0 + 10), Ok(300));
    let bob_position = s.user_stake;
    assert_eq!(s.stake_pool.total_staked, alice_position.staked_amount + bob_position.staked_amount);
    assert_eq!(s.stake_pool.staker_count, 2);

    let mut u = unstake_ctx(s.stake_pool, alice_position);
    assert_eq!(unstake::handler(&mut u, 700, T0 + 20), Ok(700));
    assert_eq!(u.stake_pool.total_staked, bob_position.staked_amount);
    assert_eq!(u.stake_pool.staker_count, 1);
    assert_eq!(u.user_stake.tier, FLEX);

    let mut again = stake_ctx(u.stake_pool, bob_position);
    again.user = bob;
    again.user_token_account = bob_tokens;
    assert_eq!(stake::handler(&mut again, 50, CORE, T0 + 30), Ok(50));
    assert_eq!(again.user_stake.tier, CORE);
    assert_eq!(again.stake_pool.total_staked, 350);
    assert_eq!(again.stake_pool.staker_count, 1);
}

#[test]
fn full_rate_over_max_elapsed_is_a_conversion_error() {
    let pool = new_pool(1_000_000_000);
    let mut admin = admin_ctx(pool);
    assert_eq!(adjust_apy_handler(&mut admin, MAX_APY, MAX_APY, MAX_APY, T0), Ok(()));
    let position = UserStake {
        owner: alice(),
        stake_pool: pool_key(),
        staked_amount: u64::MAX,
        tier: FLEX,
        is_active: true,
        ..UserStake::default()
    };
    assert_eq!(
        calculate_pending_rewards(&position, &admin.stake_pool, i64::MAX),
        Err(StakingError::ConversionOverflow)
    );
}

#[test]
fn one_year_pays_rate_on_any_amount() {
    for (amount, tier, expected) in [(2_500u64, FLEX, 100u64), (777_777, CORE, 77_777), (10, PRIME, 1)] {
        let (pool, position) = staked(1_000_000_000, amount, tier, T0);
        let mut ctx = claim_ctx(pool, position, 1_000_000);
        assert_eq!(claim_rewards::handler(&mut ctx, T0 + YEAR), Ok(expected));
    }
}
