//! The two durable entities — a staking pool and a per-user position — and
//! the four state transitions that act on them.
//!
//! Each executable operation is specified against a functional description of
//! the transition (`spec_stake`, `spec_unstake`, `spec_claim`): on success the
//! new pool and position are exactly the ones the specification gives, and on
//! any error both are left exactly as they were, so the host can treat each
//! operation as atomic. The asset transfer an operation asks for (the staked
//! amount in or out, or the claimed reward total) is carried by the argument
//! or the returned value; performing it is the host's concern.

use vstd::prelude::*;

use crate::accrual::{calculate_rewards, spec_accrue};
use crate::errors::StakingError;

verus! {

/// A shared staking instance pairing one stake asset with one reward asset.
///
/// All fields but `total_staked` are immutable after creation; `total_staked`
/// is the sum of the `amount` fields of every position in the pool.
#[derive(Clone, Copy, Debug, PartialEq, Eq, Structural)]
pub struct StakingPool {
    /// Identity permitted to fund rewards and that answers for the pool's vaults.
    pub authority: u64,
    /// The asset users stake.
    pub stake_token_mint: u64,
    /// The asset users earn.
    pub reward_token_mint: u64,
    /// Rewards per staked unit per second, scaled by `FIXED_POINT_SCALE`.
    pub reward_rate: u64,
    /// Minimum seconds between a position's last checkpoint and an unstake.
    pub min_stake_duration: i64,
    /// Sum of all positions' staked amounts.
    pub total_staked: u64,
}

/// One user's record of staked amount and accrued-but-unclaimed rewards
/// within a pool, created lazily on first stake.
#[derive(Clone, Copy, Debug, PartialEq, Eq, Structural)]
pub struct UserStake {
    /// The owning user.
    pub user: u64,
    /// The pool the position belongs to.
    pub pool: u64,
    /// Currently staked quantity.
    pub amount: u64,
    /// Timestamp of the last accrual checkpoint.
    pub last_stake_time: i64,
    /// Rewards accrued across checkpoints but not yet claimed.
    pub pending_rewards: u64,
}

/// The pending balance after folding newly accrued rewards into `pending`:
/// the accrual from `last` to `now` added to `pending`, `Overflow` if the sum
/// leaves 64 bits, or the accrual's own error.
pub open spec fn spec_checkpoint(
    amount: u64,
    rate: u64,
    last: i64,
    pending: u64,
    now: i64,
) -> Result<u64, StakingError> {
    match spec_accrue(amount, rate, last, now) {
        Err(e) => Err(e),
        Ok(rewards) => {
            if pending + rewards > u64::MAX {
                Err(StakingError::Overflow)
            } else {
                Ok((pending + rewards) as u64)
            }
        },
    }
}

/// What staking `amount` at time `now` does to `(pool, us)`.
///
/// A zero amount is `InvalidAmount`. A position that already stakes something
/// is checkpointed first; a fresh or empty position keeps its pending balance
/// untouched. Then the staked amount and the pool total each grow by
/// `amount`, and the checkpoint time moves to `now`. Any failed checked step
/// yields its error and no change.
pub open spec fn spec_stake(
    pool: StakingPool,
    us: UserStake,
    amount: u64,
    now: i64,
) -> Result<(StakingPool, UserStake), StakingError> {
    if amount == 0 {
        Err(StakingError::InvalidAmount)
    } else {
        let checkpoint = if us.amount > 0 {
            spec_checkpoint(us.amount, pool.reward_rate, us.last_stake_time, us.pending_rewards, now)
        } else {
            Ok(us.pending_rewards)
        };
        match checkpoint {
            Err(e) => Err(e),
            Ok(new_pending) => {
                if us.amount + amount > u64::MAX {
                    Err(StakingError::Overflow)
                } else if pool.total_staked + amount > u64::MAX {
                    Err(StakingError::Overflow)
                } else {
                    Ok(
                        (
                            StakingPool { total_staked: (pool.total_staked + amount) as u64, ..pool },
                            UserStake {
                                amount: (us.amount + amount) as u64,
                                last_stake_time: now,
                                pending_rewards: new_pending,
                                ..us
                            },
                        ),
                    )
                }
            },
        }
    }
}

/// What unstaking `amount` at time `now` does to `(pool, us)`.
///
/// A zero amount is `InvalidAmount`; more than the position holds is
/// `InsufficientStake`; less than `min_stake_duration` seconds since the
/// position's last checkpoint is `StakeDurationNotMet`. Otherwise the
/// position is checkpointed, the staked amount and the pool total each shrink
/// by `amount` (a pool total below `amount` is `Underflow`), and the
/// checkpoint time moves to `now`. Any error means no change.
pub open spec fn spec_unstake(
    pool: StakingPool,
    us: UserStake,
    amount: u64,
    now: i64,
) -> Result<(StakingPool, UserStake), StakingError> {
    if amount == 0 {
        Err(StakingError::InvalidAmount)
    } else if us.amount < amount {
        Err(StakingError::InsufficientStake)
    } else if now - us.last_stake_time < pool.min_stake_duration {
        Err(StakingError::StakeDurationNotMet)
    } else {
        match spec_checkpoint(us.amount, pool.reward_rate, us.last_stake_time, us.pending_rewards, now) {
            Err(e) => Err(e),
            Ok(new_pending) => {
                if pool.total_staked < amount {
                    Err(StakingError::Underflow)
                } else {
                    Ok(
                        (
                            StakingPool { total_staked: (pool.total_staked - amount) as u64, ..pool },
                            UserStake {
                                amount: (us.amount - amount) as u64,
                                last_stake_time: now,
                                pending_rewards: new_pending,
                                ..us
                            },
                        ),
                    )
                }
            },
        }
    }
}

/// What claiming at time `now` does to `us` under `pool`, and how much is
/// paid out.
///
/// The position is checkpointed (a zero-amount position accrues nothing but
/// keeps its pending balance claimable); a zero total is `NoRewardsToClaim`;
/// otherwise the whole total is paid out, the pending balance is zeroed and
/// the checkpoint time moves to `now`. Any error means no change.
pub open spec fn spec_claim(
    pool: StakingPool,
    us: UserStake,
    now: i64,
) -> Result<(u64, UserStake), StakingError> {
    match spec_checkpoint(us.amount, pool.reward_rate, us.last_stake_time, us.pending_rewards, now) {
        Err(e) => Err(e),
        Ok(total) => {
            if total == 0 {
                Err(StakingError::NoRewardsToClaim)
            } else {
                Ok((total, UserStake { last_stake_time: now, pending_rewards: 0, ..us }))
            }
        },
    }
}

impl UserStake {
    /// A fresh position for `(pool, user)`: nothing staked, nothing pending,
    /// checkpointed at time zero. The get-or-create step of a first stake.
    pub fn new(user: u64, pool: u64) -> (us: UserStake)
        ensures
            us == (UserStake { user, pool, amount: 0, last_stake_time: 0, pending_rewards: 0 }),
    {
        UserStake { user, pool, amount: 0, last_stake_time: 0, pending_rewards: 0 }
    }
}

/// A new pool under `authority` for the given asset pair, with nothing staked
/// yet.
pub fn initialize_pool(
    authority: u64,
    stake_token_mint: u64,
    reward_token_mint: u64,
    reward_rate: u64,
    min_stake_duration: i64,
) -> (pool: StakingPool)
    ensures
        pool == (StakingPool {
            authority,
            stake_token_mint,
            reward_token_mint,
            reward_rate,
            min_stake_duration,
            total_staked: 0,
        }),
{
    StakingPool {
        authority,
        stake_token_mint,
        reward_token_mint,
        reward_rate,
        min_stake_duration,
        total_staked: 0,
    }
}

/// Stake `amount` into the pool at time `now`.
///
/// On success the host owes a transfer of `amount` of the stake asset from
/// the user into the pool's stake vault, atomic with this state change. On
/// error nothing changed and no transfer is owed.
pub fn stake(pool: &mut StakingPool, user_stake: &mut UserStake, amount: u64, now: i64) -> (res:
    Result<(), StakingError>)
    ensures
        match spec_stake(*old(pool), *old(user_stake), amount, now) {
            Ok(next) => res == Ok::<(), StakingError>(()) && *final(pool) == next.0
                && *final(user_stake) == next.1,
            Err(e) => res == Err::<(), StakingError>(e) && *final(pool) == *old(pool)
                && *final(user_stake) == *old(user_stake),
        },
{
    if amount == 0 {
        return Err(StakingError::InvalidAmount);
    }
    let mut new_pending: u64 = user_stake.pending_rewards;
    if user_stake.amount > 0 {
        let rewards: u64 = match calculate_rewards(
            user_stake.amount,
            pool.reward_rate,
            user_stake.last_stake_time,
            now,
        ) {
            Ok(r) => r,
            Err(e) => {
                return Err(e);
            },
        };
        new_pending = match user_stake.pending_rewards.checked_add(rewards) {
            Some(v) => v,
            None => {
                return Err(StakingError::Overflow);
            },
        };
    }
    let new_amount: u64 = match user_stake.amount.checked_add(amount) {
        Some(v) => v,
        None => {
            return Err(StakingError::Overflow);
        },
    };
    let new_total: u64 = match pool.total_staked.checked_add(amount) {
        Some(v) => v,
        None => {
            return Err(StakingError::Overflow);
        },
    };
    user_stake.amount = new_amount;
    user_stake.pending_rewards = new_pending;
    user_stake.last_stake_time = now;
    pool.total_staked = new_total;
    Ok(())
}

/// Unstake `amount` from the pool at time `now`.
///
/// On success the host owes a transfer of `amount` of the stake asset from
/// the pool's stake vault back to the user, atomic with this state change.
/// On error nothing changed and no transfer is owed.
pub fn unstake(pool: &mut StakingPool, user_stake: &mut UserStake, amount: u64, now: i64) -> (res:
    Result<(), StakingError>)
    ensures
        match spec_unstake(*old(pool), *old(user_stake), amount, now) {
            Ok(next) => res == Ok::<(), StakingError>(()) && *final(pool) == next.0
                && *final(user_stake) == next.1,
            Err(e) => res == Err::<(), StakingError>(e) && *final(pool) == *old(pool)
                && *final(user_stake) == *old(user_stake),
        },
{
    if amount == 0 {
        return Err(StakingError::InvalidAmount);
    }
    if user_stake.amount < amount {
        return Err(StakingError::InsufficientStake);
    }
    let elapsed: i128 = (now as i128) - (user_stake.last_stake_time as i128);
    if elapsed < pool.min_stake_duration as i128 {
        return Err(StakingError::StakeDurationNotMet);
    }
    let rewards: u64 = match calculate_rewards(
        user_stake.amount,
        pool.reward_rate,
        user_stake.last_stake_time,
        now,
    ) {
        Ok(r) => r,
        Err(e) => {
            return Err(e);
        },
    };
    let new_pending: u64 = match user_stake.pending_rewards.checked_add(rewards) {
        Some(v) => v,
        None => {
            return Err(StakingError::Overflow);
        },
    };
    let new_amount: u64 = match user_stake.amount.checked_sub(amount) {
        Some(v) => v,
        None => {
            return Err(StakingError::Underflow);
        },
    };
    let new_total: u64 = match pool.total_staked.checked_sub(amount) {
        Some(v) => v,
        None => {
            return Err(StakingError::Underflow);
        },
    };
    user_stake.amount = new_amount;
    user_stake.pending_rewards = new_pending;
    user_stake.last_stake_time = now;
    pool.total_staked = new_total;
    Ok(())
}

/// Claim every reward owed to the position at time `now`.
///
/// On success the host owes a transfer of the returned total of the reward
/// asset from the pool's reward vault to the user, atomic with this state
/// change. On error nothing changed and no transfer is owed.
pub fn claim_rewards(pool: &StakingPool, user_stake: &mut UserStake, now: i64) -> (res: Result<
    u64,
    StakingError,
>)
    ensures
        match spec_claim(*pool, *old(user_stake), now) {
            Ok(claimed) => res == Ok::<u64, StakingError>(claimed.0)
                && *final(user_stake) == claimed.1,
            Err(e) => res == Err::<u64, StakingError>(e) && *final(user_stake) == *old(user_stake),
        },
{
    let rewards: u64 = match calculate_rewards(
        user_stake.amount,
        pool.reward_rate,
        user_stake.last_stake_time,
        now,
    ) {
        Ok(r) => r,
        Err(e) => {
            return Err(e);
        },
    };
    let total_rewards: u64 = match user_stake.pending_rewards.checked_add(rewards) {
        Some(v) => v,
        None => {
            return Err(StakingError::Overflow);
        },
    };
    if total_rewards == 0 {
        return Err(StakingError::NoRewardsToClaim);
    }
    user_stake.pending_rewards = 0;
    user_stake.last_stake_time = now;
    Ok(total_rewards)
}

/// Validate an administrative funding of the reward vault.
///
/// Funding moves `amount` of the reward asset from the funder into the pool's
/// reward vault and touches no accounting field, so the engine only rejects a
/// zero amount; the transfer itself is the host's concern. No solvency check
/// is made against outstanding pending rewards.
pub fn fund_rewards(amount: u64) -> (res: Result<(), StakingError>)
    ensures
        amount == 0 <==> res == Err::<(), StakingError>(StakingError::InvalidAmount),
        amount > 0 <==> res == Ok::<(), StakingError>(()),
{
    if amount == 0 {
        return Err(StakingError::InvalidAmount);
    }
    Ok(())
}

} // verus!
