//! Tests of the pool and position state transitions.

use staking_program::engine::{
    claim_rewards, fund_rewards, initialize_pool, stake, unstake, StakingPool, UserStake,
};
use staking_program::errors::StakingError;

const RATE_ONE: u64 = 1_000_000_000;

fn pool_with(reward_rate: u64, min_stake_duration: i64) -> StakingPool {
    initialize_pool(1, 2, 3, reward_rate, min_stake_duration)
}

#[test]
fn initialize_pool_sets_every_field() {
    let pool = initialize_pool(10, 20, 30, 40, 50);
    assert_eq!(pool.authority, 10);
    assert_eq!(pool.stake_token_mint, 20);
    assert_eq!(pool.reward_token_mint, 30);
    assert_eq!(pool.reward_rate, 40);
    assert_eq!(pool.min_stake_duration, 50);
    assert_eq!(pool.total_staked, 0);
}

#[test]
fn new_position_is_empty() {
    let us = UserStake::new(7, 9);
    assert_eq!(us.user, 7);
    assert_eq!(us.pool, 9);
    assert_eq!(us.amount, 0);
    assert_eq!(us.last_stake_time, 0);
    assert_eq!(us.pending_rewards, 0);
}

#[test]
fn stake_zero_is_invalid_and_changes_nothing() {
    let mut pool = pool_with(RATE_ONE, 0);
    let mut us = UserStake::new(7, 9);
    assert_eq!(stake(&mut pool, &mut us, 0, 5), Err(StakingError::InvalidAmount));
    assert_eq!(pool, pool_with(RATE_ONE, 0));
    assert_eq!(us, UserStake::new(7, 9));
}

#[test]
fn first_stake_moves_amount_and_total() {
    let mut pool = pool_with(RATE_ONE, 0);
    let mut us = UserStake::new(7, 9);
    assert_eq!(stake(&mut pool, &mut us, 100, 4), Ok(()));
    assert_eq!(us.amount, 100);
    assert_eq!(us.pending_rewards, 0);
    assert_eq!(us.last_stake_time, 4);
    assert_eq!(pool.total_staked, 100);
}

#[test]
fn second_stake_checkpoints_pending_before_growing_amount() {
    // Stake 100 at t=0, stake another 50 at t=5 at rate 1.0: the checkpoint
    // must credit 100 * 5 = 500 before the amount grows to 150.
    let mut pool = pool_with(RATE_ONE, 0);
    let mut us = UserStake::new(7, 9);
    assert_eq!(stake(&mut pool, &mut us, 100, 0), Ok(()));
    assert_eq!(stake(&mut pool, &mut us, 50, 5), Ok(()));
    assert_eq!(us.pending_rewards, 500);
    assert_eq!(us.amount, 150);
    assert_eq!(us.last_stake_time, 5);
    assert_eq!(pool.total_staked, 150);
}

#[test]
fn stake_overflowing_the_position_fails_cleanly() {
    // The checkpoint accrues nothing at rate zero; the position amount
    // addition itself overflows.
    let mut pool = pool_with(0, 0);
    let mut us = UserStake::new(7, 9);
    assert_eq!(stake(&mut pool, &mut us, u64::MAX, 0), Ok(()));
    let before_pool = pool;
    let before_us = us;
    assert_eq!(stake(&mut pool, &mut us, 1, 1), Err(StakingError::Overflow));
    assert_eq!(pool, before_pool);
    assert_eq!(us, before_us);
}

#[test]
fn stake_with_overflowing_checkpoint_fails_cleanly() {
    // amount = rate = u64::MAX and two seconds elapsed: the widened product
    // leaves 128 bits, so the checkpoint reports Overflow, never wrapping.
    let mut pool = pool_with(u64::MAX, 0);
    let mut us = UserStake::new(7, 9);
    assert_eq!(stake(&mut pool, &mut us, u64::MAX, 0), Ok(()));
    let before_pool = pool;
    let before_us = us;
    assert_eq!(stake(&mut pool, &mut us, 1, 2), Err(StakingError::Overflow));
    assert_eq!(pool, before_pool);
    assert_eq!(us, before_us);
}

#[test]
fn stake_after_clock_regression_fails_cleanly() {
    let mut pool = pool_with(RATE_ONE, 0);
    let mut us = UserStake::new(7, 9);
    assert_eq!(stake(&mut pool, &mut us, 100, 10), Ok(()));
    let before_pool = pool;
    let before_us = us;
    assert_eq!(stake(&mut pool, &mut us, 1, 9), Err(StakingError::ClockRegression));
    assert_eq!(pool, before_pool);
    assert_eq!(us, before_us);
}

#[test]
fn unstake_zero_is_invalid() {
    let mut pool = pool_with(RATE_ONE, 0);
    let mut us = UserStake::new(7, 9);
    assert_eq!(stake(&mut pool, &mut us, 100, 0), Ok(()));
    assert_eq!(unstake(&mut pool, &mut us, 0, 5), Err(StakingError::InvalidAmount));
}

#[test]
fn unstake_more_than_held_fails_and_mutates_nothing() {
    let mut pool = pool_with(RATE_ONE, 0);
    let mut us = UserStake::new(7, 9);
    assert_eq!(stake(&mut pool, &mut us, 100, 0), Ok(()));
    let before_pool = pool;
    let before_us = us;
    assert_eq!(
        unstake(&mut pool, &mut us, 101, 5),
        Err(StakingError::InsufficientStake)
    );
    assert_eq!(pool, before_pool);
    assert_eq!(us, before_us);
}

#[test]
fn unstake_before_min_duration_fails_then_succeeds_after() {
    let mut pool = pool_with(RATE_ONE, 5);
    let mut us = UserStake::new(7, 9);
    assert_eq!(stake(&mut pool, &mut us, 100, 0), Ok(()));
    let before_pool = pool;
    let before_us = us;
    assert_eq!(
        unstake(&mut pool, &mut us, 100, 3),
        Err(StakingError::StakeDurationNotMet)
    );
    assert_eq!(pool, before_pool);
    assert_eq!(us, before_us);
    // Once the minimum duration has elapsed the same request returns the
    // whole principal.
    assert_eq!(unstake(&mut pool, &mut us, 100, 5), Ok(()));
    assert_eq!(us.amount, 0);
    assert_eq!(us.pending_rewards, 500);
    assert_eq!(us.last_stake_time, 5);
    assert_eq!(pool.total_staked, 0);
}

#[test]
fn partial_unstake_resets_the_duration_clock() {
    // The duration check runs against the position's last checkpoint, so a
    // partial unstake pushes the next one out by min_stake_duration again.
    let mut pool = pool_with(0, 10);
    let mut us = UserStake::new(7, 9);
    assert_eq!(stake(&mut pool, &mut us, 100, 0), Ok(()));
    assert_eq!(unstake(&mut pool, &mut us, 40, 10), Ok(()));
    assert_eq!(
        unstake(&mut pool, &mut us, 40, 19),
        Err(StakingError::StakeDurationNotMet)
    );
    assert_eq!(unstake(&mut pool, &mut us, 40, 20), Ok(()));
    assert_eq!(us.amount, 20);
    assert_eq!(pool.total_staked, 20);
}

#[test]
fn unstake_from_inconsistent_pool_reports_underflow() {
    // A pool whose accounted total fell behind the position it covers: the
    // pool-total subtraction is checked, not assumed.
    let mut pool = pool_with(0, 0);
    pool.total_staked = 30;
    let mut us = UserStake {
        user: 7,
        pool: 9,
        amount: 100,
        last_stake_time: 0,
        pending_rewards: 0,
    };
    let before_us = us;
    assert_eq!(unstake(&mut pool, &mut us, 50, 5), Err(StakingError::Underflow));
    assert_eq!(pool.total_staked, 30);
    assert_eq!(us, before_us);
}

#[test]
fn claim_pays_accrued_rewards_and_zeroes_pending() {
    let mut pool = pool_with(RATE_ONE, 0);
    let mut us = UserStake::new(7, 9);
    assert_eq!(stake(&mut pool, &mut us, 100, 0), Ok(()));
    assert_eq!(claim_rewards(&pool, &mut us, 10), Ok(1000));
    assert_eq!(us.pending_rewards, 0);
    assert_eq!(us.amount, 100);
    assert_eq!(us.last_stake_time, 10);
}

#[test]
fn claim_twice_at_the_same_time_finds_nothing() {
    let mut pool = pool_with(RATE_ONE, 0);
    let mut us = UserStake::new(7, 9);
    assert_eq!(stake(&mut pool, &mut us, 100, 0), Ok(()));
    assert_eq!(claim_rewards(&pool, &mut us, 10), Ok(1000));
    let before_us = us;
    assert_eq!(
        claim_rewards(&pool, &mut us, 10),
        Err(StakingError::NoRewardsToClaim)
    );
    assert_eq!(us, before_us);
}

#[test]
fn claim_with_nothing_owed_fails() {
    let pool = pool_with(RATE_ONE, 0);
    let mut us = UserStake::new(7, 9);
    assert_eq!(
        claim_rewards(&pool, &mut us, 10),
        Err(StakingError::NoRewardsToClaim)
    );
}

#[test]
fn emptied_position_still_pays_its_pending_rewards() {
    // Unstake everything, then claim: the position accrues nothing further
    // at zero amount, but what was checkpointed stays claimable.
    let mut pool = pool_with(RATE_ONE, 0);
    let mut us = UserStake::new(7, 9);
    assert_eq!(stake(&mut pool, &mut us, 100, 0), Ok(()));
    assert_eq!(unstake(&mut pool, &mut us, 100, 10), Ok(()));
    assert_eq!(us.amount, 0);
    assert_eq!(us.pending_rewards, 1000);
    assert_eq!(claim_rewards(&pool, &mut us, 25), Ok(1000));
    assert_eq!(us.pending_rewards, 0);
}

#[test]
fn claim_after_clock_regression_fails_cleanly() {
    let mut pool = pool_with(RATE_ONE, 0);
    let mut us = UserStake::new(7, 9);
    assert_eq!(stake(&mut pool, &mut us, 100, 10), Ok(()));
    let before_us = us;
    assert_eq!(
        claim_rewards(&pool, &mut us, 9),
        Err(StakingError::ClockRegression)
    );
    assert_eq!(us, before_us);
}

#[test]
fn fund_rewards_rejects_zero_and_accepts_the_rest() {
    assert_eq!(fund_rewards(0), Err(StakingError::InvalidAmount));
    assert_eq!(fund_rewards(1), Ok(()));
    assert_eq!(fund_rewards(u64::MAX), Ok(()));
}

#[test]
fn total_staked_tracks_the_sum_of_positions() {
    // A sequence of stakes and unstakes across two positions of one pool:
    // after every operation the pool total equals the sum of the amounts.
    let mut pool = pool_with(RATE_ONE, 0);
    let mut alice = UserStake::new(1, 9);
    let mut bob = UserStake::new(2, 9);

    assert_eq!(stake(&mut pool, &mut alice, 100, 0), Ok(()));
    assert_eq!(pool.total_staked, alice.amount + bob.amount);
    assert_eq!(stake(&mut pool, &mut bob, 250, 1), Ok(()));
    assert_eq!(pool.total_staked, alice.amount + bob.amount);
    assert_eq!(unstake(&mut pool, &mut alice, 30, 2), Ok(()));
    assert_eq!(pool.total_staked, alice.amount + bob.amount);
    assert_eq!(stake(&mut pool, &mut alice, 5, 3), Ok(()));
    assert_eq!(pool.total_staked, alice.amount + bob.amount);
    assert_eq!(unstake(&mut pool, &mut bob, 250, 4), Ok(()));
    assert_eq!(pool.total_staked, alice.amount + bob.amount);
    assert_eq!(pool.total_staked, 75);
}
