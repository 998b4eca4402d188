//! Time-weighted staking accounting engine.
//!
//! Users deposit a stake asset into a shared pool and accrue a reward asset
//! proportional to the amount staked and the time elapsed since their last
//! accounting checkpoint. This crate holds the accounting core: the accrual
//! arithmetic and the state transitions (stake, unstake, claim, fund), each
//! verified against an exact functional specification. Durable storage,
//! asset-transfer execution, authorization and the command surface are left
//! to the host, which is expected to apply each operation and its requested
//! transfer atomically.

pub mod accrual;
pub mod conservation;
pub mod engine;
pub mod errors;
pub mod laws;
