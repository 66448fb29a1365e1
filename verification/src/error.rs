//! The reasons for which the pool rejects a call.

use vstd::prelude::*;

verus! {

/// Why a call was rejected. A rejected call leaves the pool unchanged.
#[derive(Clone, Copy, Debug, PartialEq, Eq)]
pub enum LpPoolError {
    /// The fee bounds or the liquidity target given at initialization are out
    /// of order or out of range.
    InvalidFee,
    /// More shares were asked to be burned than the pool has issued.
    InsufficientLiquidity,
    /// The swap would pay out more base token than the pool holds.
    InsufficientStakedTokens,
    /// A zero amount was given where a positive one is needed.
    InvalidTokenAmount,
}

impl LpPoolError {
    /// The text of the message for each kind of rejection.
    pub open spec fn message_text(self) -> Seq<char> {
        match self {
            LpPoolError::InvalidFee => "Invalid fee values provided."@,
            LpPoolError::InsufficientLiquidity => "Insufficient liquidity in the pool."@,
            LpPoolError::InsufficientStakedTokens => "Insufficient staked tokens in the pool."@,
            LpPoolError::InvalidTokenAmount => "Invalid token amount provided."@,
        }
    }

    /// A one-sentence description of the rejection, for display to a user.
    pub fn message(&self) -> (s: &'static str)
        ensures
            s@ == self.message_text(),
    {
        match self {
            LpPoolError::InvalidFee => "Invalid fee values provided.",
            LpPoolError::InsufficientLiquidity => "Insufficient liquidity in the pool.",
            LpPoolError::InsufficientStakedTokens => "Insufficient staked tokens in the pool.",
            LpPoolError::InvalidTokenAmount => "Invalid token amount provided.",
        }
    }
}

} // verus!
