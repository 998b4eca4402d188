//! The error taxonomy of the accounting engine.
//!
//! Every error is terminal for the invoking operation: an operation that
//! returns an error leaves the pool and the position exactly as they were.

use vstd::prelude::*;

verus! {

/// Why a staking operation was refused.
#[derive(Clone, Copy, Debug, PartialEq, Eq, Structural)]
pub enum StakingError {
    /// A zero-amount request.
    InvalidAmount,
    /// An unstake asked for more than the position holds.
    InsufficientStake,
    /// An unstake came before the pool's minimum stake duration had elapsed
    /// since the position's last checkpoint.
    StakeDurationNotMet,
    /// A claim found nothing owed.
    NoRewardsToClaim,
    /// A checked addition or multiplication, or the narrowing of an accrual
    /// result to 64 bits, would have lost a value.
    Overflow,
    /// A checked subtraction would have gone below zero.
    Underflow,
    /// The fixed-point scale constant was zero (defensive; the scale is a
    /// nonzero constant, so this is never returned).
    DivisionByZero,
    /// A timestamp earlier than the position's last checkpoint was observed.
    ClockRegression,
}

} // verus!
