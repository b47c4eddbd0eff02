//! The invariants of the pool and position records hold after any sequence
//! of operations, whether each one succeeds or is refused, and each
//! operation keeps the pool's totals in step with the one position it
//! touches.

use vstd::prelude::*;

use crate::instructions::admin::{
    adjust_apy_outcome, set_paused_outcome, transfer_authority_outcome,
    update_emission_cap_outcome, AdminControl,
};
use crate::instructions::claim_rewards::{claim_outcome, ClaimRewards};
use crate::instructions::fund_treasury::{fund_treasury_outcome, FundTreasury};
use crate::instructions::initialize::{initialize_outcome, Initialize};
use crate::instructions::stake::{stake_outcome, Stake};
use crate::instructions::unstake::{unstake_outcome, Unstake};
use crate::pubkey::Pubkey;
use crate::state::stake_pool::StakePool;
use crate::state::user_stake::UserStake;

verus! {

/// An operation on a pool, with every input but the pool record itself.
pub enum PoolOp {
    Stake { stake: Stake, amount: u64, tier: u8, now: i64 },
    Unstake { unstake: Unstake, amount: u64, now: i64 },
    Claim { claim: ClaimRewards, now: i64 },
    Fund { fund: FundTreasury, amount: u64, now: i64 },
    SetPaused { authority: Pubkey, paused: bool, now: i64 },
    AdjustApy { authority: Pubkey, flex_apy: u16, core_apy: u16, prime_apy: u16, now: i64 },
    UpdateEmissionCap { authority: Pubkey, new_cap: u64, now: i64 },
    TransferAuthority { authority: Pubkey, new_authority: Pubkey, now: i64 },
}

/// The pool record after `op`: the updated record if the operation
/// succeeds, the same record if it is refused.
pub open spec fn apply_pool_op(pool: StakePool, op: PoolOp) -> StakePool {
    match op {
        PoolOp::Stake { stake: ctx, amount, tier, now } => {
            let r = stake_outcome(Stake { stake_pool: pool, ..ctx }, amount, tier, now);
            if r is Ok { r->Ok_0.stake_pool } else { pool }
        },
        PoolOp::Unstake { unstake: ctx, amount, now } => {
            let r = unstake_outcome(Unstake { stake_pool: pool, ..ctx }, amount, now);
            if r is Ok { r->Ok_0.stake_pool } else { pool }
        },
        PoolOp::Claim { claim: ctx, now } => {
            let r = claim_outcome(ClaimRewards { stake_pool: pool, ..ctx }, now);
            if r is Ok { r->Ok_0.stake_pool } else { pool }
        },
        PoolOp::Fund { fund: ctx, amount, now } => {
            let r = fund_treasury_outcome(FundTreasury { stake_pool: pool, ..ctx }, amount, now);
            if r is Ok { r->Ok_0.stake_pool } else { pool }
        },
        PoolOp::SetPaused { authority, paused, now } => {
            let r = set_paused_outcome(AdminControl { authority, stake_pool: pool }, paused, now);
            if r is Ok { r->Ok_0.stake_pool } else { pool }
        },
        PoolOp::AdjustApy { authority, flex_apy, core_apy, prime_apy, now } => {
            let r = adjust_apy_outcome(
                AdminControl { authority, stake_pool: pool },
                flex_apy,
                core_apy,
                prime_apy,
                now,
            );
            if r is Ok { r->Ok_0.stake_pool } else { pool }
        },
        PoolOp::UpdateEmissionCap { authority, new_cap, now } => {
            let r = update_emission_cap_outcome(
                AdminControl { authority, stake_pool: pool },
                new_cap,
                now,
            );
            if r is Ok { r->Ok_0.stake_pool } else { pool }
        },
        PoolOp::TransferAuthority { authority, new_authority, now } => {
            let r = transfer_authority_outcome(
                AdminControl { authority, stake_pool: pool },
                new_authority,
                now,
            );
            if r is Ok { r->Ok_0.stake_pool } else { pool }
        },
    }
}

/// The pool record after the operations of `ops`, in order.
pub open spec fn run_pool_ops(pool: StakePool, ops: Seq<PoolOp>) -> StakePool
    decreases ops.len(),
{
    if ops.len() == 0 {
        pool
    } else {
        apply_pool_op(run_pool_ops(pool, ops.drop_last()), ops.last())
    }
}

/// An operation on a position, with every input but the position record.
pub enum PositionOp {
    Stake { stake: Stake, amount: u64, tier: u8, now: i64 },
    Unstake { unstake: Unstake, amount: u64, now: i64 },
    Claim { claim: ClaimRewards, now: i64 },
}

/// The position record after `op`: the updated record if the operation
/// succeeds, the same record if it is refused.
pub open spec fn apply_position_op(us: UserStake, op: PositionOp) -> UserStake {
    match op {
        PositionOp::Stake { stake: ctx, amount, tier, now } => {
            let r = stake_outcome(Stake { user_stake: us, ..ctx }, amount, tier, now);
            if r is Ok { r->Ok_0.user_stake } else { us }
        },
        PositionOp::Unstake { unstake: ctx, amount, now } => {
            let r = unstake_outcome(Unstake { user_stake: us, ..ctx }, amount, now);
            if r is Ok { r->Ok_0.user_stake } else { us }
        },
        PositionOp::Claim { claim: ctx, now } => {
            let r = claim_outcome(ClaimRewards { user_stake: us, ..ctx }, now);
            if r is Ok { r->Ok_0.user_stake } else { us }
        },
    }
}

/// The position record after the operations of `ops`, in order.
pub open spec fn run_position_ops(us: UserStake, ops: Seq<PositionOp>) -> UserStake
    decreases ops.len(),
{
    if ops.len() == 0 {
        us
    } else {
        apply_position_op(run_position_ops(us, ops.drop_last()), ops.last())
    }
}

/// Every operation keeps the pool invariant.
pub proof fn lemma_pool_op_keeps_invariant(pool: StakePool, op: PoolOp)
    requires
        pool.wf(),
    ensures
        apply_pool_op(pool, op).wf(),
{
}

/// The emission cap bounds the rewards paid out, after any sequence of
/// operations on a pool that satisfies the pool invariant (as every pool
/// does once created), together with the rest of that invariant.
pub proof fn lemma_pool_invariant_holds(pool: StakePool, ops: Seq<PoolOp>)
    requires
        pool.wf(),
    ensures
        run_pool_ops(pool, ops).wf(),
        run_pool_ops(pool, ops).total_distributed <= run_pool_ops(pool, ops).emission_cap,
    decreases ops.len(),
{
    if ops.len() > 0 {
        lemma_pool_invariant_holds(pool, ops.drop_last());
        lemma_pool_op_keeps_invariant(run_pool_ops(pool, ops.drop_last()), ops.last());
    }
}

/// From its creation on, a pool never pays out more than its emission cap,
/// whatever operations follow.
pub proof fn lemma_created_pool_respects_cap(
    ctx: Initialize,
    emission_cap: u64,
    flex_apy: u16,
    core_apy: u16,
    prime_apy: u16,
    now: i64,
    ops: Seq<PoolOp>,
)
    requires
        initialize_outcome(ctx, emission_cap, flex_apy, core_apy, prime_apy, now) is Ok,
    ensures
        ({
            let pool = initialize_outcome(ctx, emission_cap, flex_apy, core_apy, prime_apy, now)->Ok_0;
            run_pool_ops(pool, ops).total_distributed <= run_pool_ops(pool, ops).emission_cap
        }),
{
    let pool = initialize_outcome(ctx, emission_cap, flex_apy, core_apy, prime_apy, now)->Ok_0;
    lemma_pool_invariant_holds(pool, ops);
}

/// Every operation keeps the position invariant.
pub proof fn lemma_position_op_keeps_invariant(us: UserStake, op: PositionOp)
    requires
        us.wf(),
    ensures
        apply_position_op(us, op).wf(),
{
}

/// A position holds no tokens exactly when it is inactive, after any
/// sequence of operations on a position for which that holds (as it does
/// for a record never staked into).
pub proof fn lemma_position_invariant_holds(us: UserStake, ops: Seq<PositionOp>)
    requires
        us.wf(),
    ensures
        run_position_ops(us, ops).staked_amount == 0 <==> !run_position_ops(us, ops).is_active,
    decreases ops.len(),
{
    if ops.len() > 0 {
        lemma_position_invariant_holds(us, ops.drop_last());
        lemma_position_op_keeps_invariant(run_position_ops(us, ops.drop_last()), ops.last());
    }
}

/// The number of active positions a position counts for: one or none.
pub open spec fn active_count(us: UserStake) -> int {
    if us.is_active {
        1
    } else {
        0
    }
}

/// A stake moves the pool's staked total and its count of active stakers
/// exactly as it moves the position, never lowers the position's pending
/// rewards, and keeps the tier of a position that holds tokens.
pub proof fn lemma_stake_accounting(ctx: Stake, amount: u64, tier: u8, now: i64)
    requires
        ctx.user_stake.wf(),
        stake_outcome(ctx, amount, tier, now) is Ok,
    ensures
        ({
            let next = stake_outcome(ctx, amount, tier, now)->Ok_0;
            &&& next.stake_pool.total_staked - ctx.stake_pool.total_staked
                == next.user_stake.staked_amount - ctx.user_stake.staked_amount
            &&& next.stake_pool.staker_count - ctx.stake_pool.staker_count
                == active_count(next.user_stake) - active_count(ctx.user_stake)
            &&& next.user_stake.pending_rewards >= ctx.user_stake.pending_rewards
            &&& ctx.user_stake.staked_amount > 0 ==> next.user_stake.tier == ctx.user_stake.tier
        }),
{
}

/// An unstake moves the pool's staked total and its count of active
/// stakers exactly as it moves the position, never lowers the position's
/// pending rewards, and keeps its tier.
pub proof fn lemma_unstake_accounting(ctx: Unstake, amount: u64, now: i64)
    requires
        unstake_outcome(ctx, amount, now) is Ok,
    ensures
        ({
            let next = unstake_outcome(ctx, amount, now)->Ok_0;
            &&& next.stake_pool.total_staked - ctx.stake_pool.total_staked
                == next.user_stake.staked_amount - ctx.user_stake.staked_amount
            &&& next.stake_pool.staker_count - ctx.stake_pool.staker_count
                == active_count(next.user_stake) - active_count(ctx.user_stake)
            &&& next.user_stake.pending_rewards >= ctx.user_stake.pending_rewards
            &&& next.user_stake.tier == ctx.user_stake.tier
        }),
{
}

/// A claim leaves the staked amounts, the count of active stakers and the
/// tier alone, empties the pending rewards, and adds what it pays to the
/// pool's and the position's paid-out totals.
pub proof fn lemma_claim_accounting(ctx: ClaimRewards, now: i64)
    requires
        claim_outcome(ctx, now) is Ok,
    ensures
        ({
            let next = claim_outcome(ctx, now)->Ok_0;
            let paid = next.stake_pool.total_distributed - ctx.stake_pool.total_distributed;
            &&& next.stake_pool.total_staked == ctx.stake_pool.total_staked
            &&& next.stake_pool.staker_count == ctx.stake_pool.staker_count
            &&& next.user_stake.staked_amount == ctx.user_stake.staked_amount
            &&& next.user_stake.is_active == ctx.user_stake.is_active
            &&& next.user_stake.tier == ctx.user_stake.tier
            &&& next.user_stake.pending_rewards == 0
            &&& paid > 0
            &&& next.user_stake.total_rewards_claimed - ctx.user_stake.total_rewards_claimed
                == paid
        }),
{
}

} // verus!
