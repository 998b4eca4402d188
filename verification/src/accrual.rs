//! The accrual function: how much reward a staked amount earns over an
//! elapsed span of time.
//!
//! Rewards are `floor(amount * rate * elapsed / FIXED_POINT_SCALE)`, computed
//! in 128-bit arithmetic so that no intermediate product wraps, and narrowed
//! back to 64 bits only when the result fits. The rate is a fixed-point value
//! scaled by `FIXED_POINT_SCALE`, so a rate of `FIXED_POINT_SCALE` means one
//! reward unit per staked unit per second.

use vstd::prelude::*;

use vstd::arithmetic::div_mod::lemma_div_is_ordered;
use vstd::arithmetic::mul::lemma_mul_nonnegative;

use crate::errors::StakingError;

verus! {

/// The fixed-point scale: reward rates are expressed in units of 10^-9
/// rewards per staked unit per second.
pub const FIXED_POINT_SCALE: u64 = 1_000_000_000;

/// The mathematical reward for `amount` staked at `rate` over `elapsed`
/// seconds, before any narrowing: `floor(amount * rate * elapsed / scale)`.
pub open spec fn accrued_amount(amount: u64, rate: u64, elapsed: int) -> int {
    ((amount as int) * (rate as int) * elapsed) / (FIXED_POINT_SCALE as int)
}

/// What the accrual function returns, exactly.
///
/// - `ClockRegression` when `to < from`;
/// - `Overflow` when the widened product `amount * rate * elapsed` exceeds
///   128 bits, or when the reward after division exceeds 64 bits;
/// - otherwise `Ok(floor(amount * rate * elapsed / FIXED_POINT_SCALE))`.
pub open spec fn spec_accrue(amount: u64, rate: u64, from: i64, to: i64) -> Result<u64, StakingError> {
    if to < from {
        Err(StakingError::ClockRegression)
    } else {
        let elapsed = to - from;
        if (amount as int) * (rate as int) * elapsed > u128::MAX {
            Err(StakingError::Overflow)
        } else if accrued_amount(amount, rate, elapsed) > u64::MAX {
            Err(StakingError::Overflow)
        } else {
            Ok(accrued_amount(amount, rate, elapsed) as u64)
        }
    }
}

/// True when the accrual of `(amount, rate)` from `from` to `to` succeeds.
pub open spec fn accrue_ok(amount: u64, rate: u64, from: i64, to: i64) -> bool {
    spec_accrue(amount, rate, from, to) is Ok
}

/// Rewards owed for `staked_amount` held at `reward_rate` from
/// `last_stake_time` to `current_time`.
///
/// Pure and deterministic; the checkpoint-based operations call it to fold
/// newly earned rewards into a position's pending balance.
pub fn calculate_rewards(
    staked_amount: u64,
    reward_rate: u64,
    last_stake_time: i64,
    current_time: i64,
) -> (res: Result<u64, StakingError>)
    ensures
        res == spec_accrue(staked_amount, reward_rate, last_stake_time, current_time),
{
    if current_time < last_stake_time {
        return Err(StakingError::ClockRegression);
    }
    let wide_elapsed: i128 = (current_time as i128) - (last_stake_time as i128);
    let time_elapsed: u128 = wide_elapsed as u128;
    proof {
        assert((staked_amount as int) * (reward_rate as int) <= u128::MAX) by (nonlinear_arith);
    }
    let rate_product: u128 = match (staked_amount as u128).checked_mul(reward_rate as u128) {
        Some(v) => v,
        None => {
            return Err(StakingError::Overflow);
        },
    };
    let full_product: u128 = match rate_product.checked_mul(time_elapsed) {
        Some(v) => v,
        None => {
            return Err(StakingError::Overflow);
        },
    };
    let divisor: u128 = FIXED_POINT_SCALE as u128;
    let rewards: u128 = match full_product.checked_div(divisor) {
        Some(v) => v,
        None => {
            return Err(StakingError::DivisionByZero);
        },
    };
    if rewards > u64::MAX as u128 {
        return Err(StakingError::Overflow);
    }
    Ok(rewards as u64)
}

/// Law: accrual over an empty span earns nothing — for every amount and rate,
/// accruing from a timestamp to that same timestamp succeeds and returns zero.
pub proof fn lemma_accrue_zero_elapsed(amount: u64, rate: u64, t: i64)
    ensures
        spec_accrue(amount, rate, t, t) == Ok::<u64, StakingError>(0u64),
{
    let ar = (amount as int) * (rate as int);
    assert(ar * 0 == 0);
    assert(0int / (FIXED_POINT_SCALE as int) == 0);
}

/// Law: accrual is monotonic in elapsed time — if accruing up to `t2`
/// succeeds, then accruing over the shorter span up to `t1` also succeeds and
/// earns no more.
pub proof fn lemma_accrue_monotonic_in_elapsed(amount: u64, rate: u64, from: i64, t1: i64, t2: i64)
    requires
        from <= t1 <= t2,
        accrue_ok(amount, rate, from, t2),
    ensures
        accrue_ok(amount, rate, from, t1),
        spec_accrue(amount, rate, from, t1)->Ok_0 <= spec_accrue(amount, rate, from, t2)->Ok_0,
{
    let ar = (amount as int) * (rate as int);
    let e1 = t1 - from;
    let e2 = t2 - from;
    lemma_mul_nonnegative(amount as int, rate as int);
    lemma_mul_nonnegative(ar, e1);
    assert(ar * e1 <= ar * e2) by (nonlinear_arith)
        requires
            ar >= 0,
            e1 <= e2,
    ;
    lemma_div_is_ordered(ar * e1, ar * e2, FIXED_POINT_SCALE as int);
}

/// Law: accrual is monotonic in the staked amount — if accruing for `a2`
/// succeeds, then accruing for a smaller amount `a1` over the same span also
/// succeeds and earns no more.
pub proof fn lemma_accrue_monotonic_in_amount(a1: u64, a2: u64, rate: u64, from: i64, to: i64)
    requires
        a1 <= a2,
        accrue_ok(a2, rate, from, to),
    ensures
        accrue_ok(a1, rate, from, to),
        spec_accrue(a1, rate, from, to)->Ok_0 <= spec_accrue(a2, rate, from, to)->Ok_0,
{
    let elapsed = to - from;
    let p1 = (a1 as int) * (rate as int) * elapsed;
    let p2 = (a2 as int) * (rate as int) * elapsed;
    lemma_mul_nonnegative(a1 as int, rate as int);
    lemma_mul_nonnegative((a1 as int) * (rate as int), elapsed);
    assert(p1 <= p2) by (nonlinear_arith)
        requires
            0 <= a1 <= a2,
            rate >= 0,
            elapsed >= 0,
            p1 == (a1 as int) * (rate as int) * elapsed,
            p2 == (a2 as int) * (rate as int) * elapsed,
    ;
    lemma_div_is_ordered(p1, p2, FIXED_POINT_SCALE as int);
}

} // verus!
