//! Laws relating several operations of the engine.
//!
//! These are stated over the functional specifications of the transitions
//! (`spec_stake`, `spec_unstake`, `spec_claim`), which the executable
//! operations are proved to follow exactly.

use vstd::prelude::*;

use crate::accrual::{accrue_ok, lemma_accrue_zero_elapsed, spec_accrue};
use crate::engine::{spec_claim, spec_stake, spec_unstake, StakingPool, UserStake};
use crate::errors::StakingError;

verus! {

/// Law: no double accrual — after a successful claim, a second claim at the
/// same timestamp finds nothing owed, pays nothing, and changes nothing.
pub proof fn lemma_claim_twice_same_time(pool: StakingPool, us: UserStake, now: i64)
    requires
        spec_claim(pool, us, now) is Ok,
    ensures
        spec_claim(pool, spec_claim(pool, us, now)->Ok_0.1, now) == Err::<
            (u64, UserStake),
            StakingError,
        >(StakingError::NoRewardsToClaim),
{
    let claimed = spec_claim(pool, us, now)->Ok_0.1;
    lemma_accrue_zero_elapsed(claimed.amount, pool.reward_rate, now);
}

/// Law: asking to unstake more than the position holds fails with
/// `InsufficientStake` — and, the operations being exact to their
/// specifications, an unstake that fails mutates no state.
pub proof fn lemma_unstake_more_than_held(pool: StakingPool, us: UserStake, amount: u64, now: i64)
    requires
        amount > us.amount,
        amount > 0,
    ensures
        spec_unstake(pool, us, amount, now) == Err::<(StakingPool, UserStake), StakingError>(
            StakingError::InsufficientStake,
        ),
{
}

/// Law: an unstake coming sooner than the pool's minimum stake duration
/// after a stake fails with `StakeDurationNotMet`, however much it asks for
/// of what the stake left in the position.
pub proof fn lemma_stake_then_early_unstake(
    pool: StakingPool,
    us: UserStake,
    amount: u64,
    withdrawn: u64,
    t0: i64,
    t1: i64,
)
    requires
        spec_stake(pool, us, amount, t0) is Ok,
        0 < withdrawn <= spec_stake(pool, us, amount, t0)->Ok_0.1.amount,
        t1 - t0 < pool.min_stake_duration,
    ensures
        spec_unstake(
            spec_stake(pool, us, amount, t0)->Ok_0.0,
            spec_stake(pool, us, amount, t0)->Ok_0.1,
            withdrawn,
            t1,
        ) == Err::<(StakingPool, UserStake), StakingError>(StakingError::StakeDurationNotMet),
{
}

/// Law: once the minimum stake duration has elapsed, unstaking exactly what
/// a stake deposited succeeds, returns the principal (the position's staked
/// amount falls back to what it was before the stake) and restores the
/// pool's accounted total, provided the reward checkpoint at the unstake
/// neither overflows nor meets a clock regression.
pub proof fn lemma_stake_then_timely_unstake(
    pool: StakingPool,
    us: UserStake,
    amount: u64,
    t0: i64,
    t1: i64,
)
    requires
        spec_stake(pool, us, amount, t0) is Ok,
        t1 - t0 >= pool.min_stake_duration,
        accrue_ok(
            spec_stake(pool, us, amount, t0)->Ok_0.1.amount,
            pool.reward_rate,
            t0,
            t1,
        ),
        spec_stake(pool, us, amount, t0)->Ok_0.1.pending_rewards + spec_accrue(
            spec_stake(pool, us, amount, t0)->Ok_0.1.amount,
            pool.reward_rate,
            t0,
            t1,
        )->Ok_0 <= u64::MAX,
    ensures
        spec_unstake(
            spec_stake(pool, us, amount, t0)->Ok_0.0,
            spec_stake(pool, us, amount, t0)->Ok_0.1,
            amount,
            t1,
        ) is Ok,
        spec_unstake(
            spec_stake(pool, us, amount, t0)->Ok_0.0,
            spec_stake(pool, us, amount, t0)->Ok_0.1,
            amount,
            t1,
        )->Ok_0.1.amount == us.amount,
        spec_unstake(
            spec_stake(pool, us, amount, t0)->Ok_0.0,
            spec_stake(pool, us, amount, t0)->Ok_0.1,
            amount,
            t1,
        )->Ok_0.0.total_staked == pool.total_staked,
{
}

} // verus!
