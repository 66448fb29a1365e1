//! A single-asset liquidity pool in fixed-point arithmetic.
//!
//! Holders of a staked token swap it for the base token the pool holds in
//! reserve, at a fixed price less a fee that rises as the reserve falls below
//! its target. Every quantity is an unsigned integer scaled by
//! [`fixed_point::PRECISION_FACTOR`]; every operation either commits all of its
//! balance changes or rejects the call and leaves the pool as it was.

pub mod amounts;
pub mod error;
pub mod fee;
pub mod fixed_point;
pub mod history;
pub mod liquidity_pool;
pub mod pool_model;
