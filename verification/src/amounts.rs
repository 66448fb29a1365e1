//! The five kinds of quantity the pool works with.
//!
//! Each kind wraps one scaled integer, and is viewed as that integer. They are
//! distinct types so that a price cannot be passed where a balance is
//! expected, nor one balance for another.

use vstd::prelude::*;
use crate::fixed_point::percent_as_fraction;
use crate::fixed_point::percent_to_fraction;

verus! {

/// An amount of the base token, in scaled units.
#[derive(Clone, Copy, Debug, PartialEq, Eq)]
pub struct TokenAmount(pub u64);

/// An amount of the staked token, in scaled units.
#[derive(Clone, Copy, Debug, PartialEq, Eq)]
pub struct StakedTokenAmount(pub u64);

/// An amount of pool-ownership shares (LP tokens), in scaled units.
#[derive(Clone, Copy, Debug, PartialEq, Eq)]
pub struct LpTokenAmount(pub u64);

/// An exchange rate: base tokens per staked token, in scaled units.
#[derive(Clone, Copy, Debug, PartialEq, Eq)]
pub struct Price(pub u64);

/// A fee rate held as a scaled fraction: `PRECISION_FACTOR` stands for 100%.
#[derive(Clone, Copy, Debug, PartialEq, Eq)]
pub struct Percentage(pub u64);

impl View for TokenAmount {
    type V = int;

    open spec fn view(&self) -> int {
        self.0 as int
    }
}

impl View for StakedTokenAmount {
    type V = int;

    open spec fn view(&self) -> int {
        self.0 as int
    }
}

impl View for LpTokenAmount {
    type V = int;

    open spec fn view(&self) -> int {
        self.0 as int
    }
}

impl View for Price {
    type V = int;

    open spec fn view(&self) -> int {
        self.0 as int
    }
}

impl View for Percentage {
    type V = int;

    open spec fn view(&self) -> int {
        self.0 as int
    }
}

impl Percentage {
    /// The fraction for a percentage given in scaled units, where
    /// `PRECISION_FACTOR` stands for 1%: a hundredth of it, rounded half up.
    pub fn from_percent(percent: u64) -> (fraction: Percentage)
        ensures
            fraction@ == percent_as_fraction(percent as int),
    {
        Percentage(percent_to_fraction(percent))
    }
}

} // verus!
