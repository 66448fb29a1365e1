//! The pool as a mathematical object.
//!
//! [`PoolModel`] holds the seven quantities of a pool as unbounded integers,
//! and its functions say what each transition computes and how it changes the
//! balances. The executable pool is specified against this model.

use vstd::prelude::*;
use crate::error::LpPoolError;
use crate::fee::fee_fraction;
use crate::fee::lemma_fee_monotonic;
use crate::fee::lemma_fee_within_bounds;
use crate::fixed_point::lemma_mul_div_at_most;
use crate::fixed_point::lemma_mul_div_monotonic;
use crate::fixed_point::mul_div;
use crate::fixed_point::scaled_mul;
use crate::fixed_point::PRECISION_FACTOR;

verus! {

/// The quantities of a pool, all in scaled units.
pub struct PoolModel {
    /// Base tokens paid per staked token, before the fee.
    pub price: int,
    /// The reserve of base tokens.
    pub token_amount: int,
    /// The reserve of staked tokens.
    pub st_token_amount: int,
    /// The shares issued and not yet burned.
    pub lp_token_amount: int,
    /// The reserve at and above which the fee is at its minimum.
    pub liquidity_target: int,
    /// The lowest fee, as a fraction.
    pub min_fee: int,
    /// The highest fee, as a fraction.
    pub max_fee: int,
}

/// What is left of `amount` once the fraction `fee` of it is withheld:
/// `amount * (1 - fee)`, rounded down.
pub open spec fn less_fee(amount: int, fee: int) -> int {
    scaled_mul(amount, PRECISION_FACTOR - fee)
}

/// The part of `reserve` that `shares` out of a supply of `supply` shares
/// stand for, rounded down. Of an empty supply nothing can be burned, and the
/// part is zero.
pub open spec fn share_of(reserve: int, shares: int, supply: int) -> int {
    if supply == 0 {
        0
    } else {
        mul_div(reserve, shares, supply)
    }
}

impl PoolModel {
    /// No balance is negative, the target is positive, and
    /// `0 <= min_fee <= max_fee <= 100%`.
    pub open spec fn wf(self) -> bool {
        &&& self.price >= 0
        &&& self.token_amount >= 0
        &&& self.st_token_amount >= 0
        &&& self.lp_token_amount >= 0
        &&& self.liquidity_target > 0
        &&& 0 <= self.min_fee <= self.max_fee <= PRECISION_FACTOR
    }

    /// The immutable parameters of `self` and `other` are the same.
    pub open spec fn same_parameters(self, other: PoolModel) -> bool {
        &&& self.price == other.price
        &&& self.liquidity_target == other.liquidity_target
        &&& self.min_fee == other.min_fee
        &&& self.max_fee == other.max_fee
    }

    /// Whether a pool can be created with these parameters: a positive target
    /// and fee fractions with `min_fee <= max_fee <= 100%`.
    pub open spec fn init_accepted(liquidity_target: int, min_fee: int, max_fee: int) -> bool {
        &&& liquidity_target > 0
        &&& min_fee <= max_fee
        &&& max_fee <= PRECISION_FACTOR
    }

    /// A new pool: seeded with `liquidity_target` base tokens and as many
    /// shares, and no staked tokens.
    pub open spec fn initial(price: int, liquidity_target: int, min_fee: int, max_fee: int) -> PoolModel {
        PoolModel {
            price,
            token_amount: liquidity_target,
            st_token_amount: 0,
            lp_token_amount: liquidity_target,
            liquidity_target,
            min_fee,
            max_fee,
        }
    }

    /// The fee fraction for a base reserve that would stand at `reserve`.
    pub open spec fn fee_at(self, reserve: int) -> int {
        fee_fraction(self.min_fee, self.max_fee, self.liquidity_target, reserve)
    }

    /// Whether `amount` base tokens can be added as liquidity.
    pub open spec fn add_liquidity_accepted(self, amount: int) -> bool {
        amount > 0
    }

    /// The pool after `amount` base tokens were added: the whole amount goes
    /// to the base reserve, and as many shares are issued.
    pub open spec fn after_add_liquidity(self, amount: int) -> PoolModel {
        PoolModel {
            token_amount: self.token_amount + amount,
            lp_token_amount: self.lp_token_amount + amount,
            ..self
        }
    }

    /// Whether `shares` can be burned: the pool has issued at least as many.
    pub open spec fn remove_liquidity_accepted(self, shares: int) -> bool {
        0 <= shares <= self.lp_token_amount
    }

    /// The base tokens that `shares` stand for, before the fee.
    pub open spec fn withdrawal_gross(self, shares: int) -> int {
        share_of(self.token_amount, shares, self.lp_token_amount)
    }

    /// The staked tokens that `shares` stand for.
    pub open spec fn withdrawal_staked(self, shares: int) -> int {
        share_of(self.st_token_amount, shares, self.lp_token_amount)
    }

    /// The fee fraction on a withdrawal of `shares`, set by the base reserve
    /// that the withdrawal leaves.
    pub open spec fn withdrawal_fee(self, shares: int) -> int {
        self.fee_at(self.token_amount - self.withdrawal_gross(shares))
    }

    /// The base tokens paid out for `shares`, after the fee.
    pub open spec fn withdrawal_net(self, shares: int) -> int {
        less_fee(self.withdrawal_gross(shares), self.withdrawal_fee(shares))
    }

    /// The pool after `shares` were burned: the supply falls by the shares,
    /// and each reserve by the part they stand for.
    pub open spec fn after_remove_liquidity(self, shares: int) -> PoolModel {
        PoolModel {
            token_amount: self.token_amount - self.withdrawal_gross(shares),
            st_token_amount: self.st_token_amount - self.withdrawal_staked(shares),
            lp_token_amount: self.lp_token_amount - shares,
            ..self
        }
    }

    /// The base tokens due for `staked` staked tokens at the pool's price,
    /// before the fee.
    pub open spec fn swap_gross(self, staked: int) -> int {
        scaled_mul(staked, self.price)
    }

    /// Whether a swap of `staked` is accepted: the amount is positive and the
    /// base reserve covers the gross payment.
    pub open spec fn swap_accepted(self, staked: int) -> bool {
        staked > 0 && self.swap_gross(staked) <= self.token_amount
    }

    /// The reason for which a swap of `staked` that is not accepted is
    /// rejected: a zero amount is invalid, and any other is more than the
    /// base reserve covers.
    pub open spec fn swap_rejection(self, staked: int) -> LpPoolError {
        if staked <= 0 {
            LpPoolError::InvalidTokenAmount
        } else {
            LpPoolError::InsufficientStakedTokens
        }
    }

    /// The fee fraction on a swap of `staked`, set by the base reserve that
    /// paying the gross amount would leave.
    pub open spec fn swap_fee(self, staked: int) -> int {
        self.fee_at(self.token_amount - self.swap_gross(staked))
    }

    /// The base tokens paid out for `staked`, after the fee.
    pub open spec fn swap_net(self, staked: int) -> int {
        less_fee(self.swap_gross(staked), self.swap_fee(staked))
    }

    /// The pool after a swap of `staked`: the staked tokens are taken in, the
    /// net payment leaves the base reserve, and the fee stays in it.
    pub open spec fn after_swap(self, staked: int) -> PoolModel {
        PoolModel {
            token_amount: self.token_amount - self.swap_net(staked),
            st_token_amount: self.st_token_amount + staked,
            ..self
        }
    }

    /// Withholding the pool's fee leaves at most the whole amount, and never
    /// a negative one.
    pub proof fn lemma_less_fee_at_most(self, amount: int, reserve: int)
        requires
            self.wf(),
            amount >= 0,
            reserve >= 0,
        ensures
            self.min_fee <= self.fee_at(reserve) <= self.max_fee,
            0 <= less_fee(amount, self.fee_at(reserve)) <= amount,
    {
        lemma_fee_within_bounds(self.min_fee, self.max_fee, self.liquidity_target, reserve);
        lemma_mul_div_at_most(
            amount,
            PRECISION_FACTOR - self.fee_at(reserve),
            PRECISION_FACTOR as int,
        );
    }

    /// Adding liquidity keeps the pool well formed, and leaves it with shares
    /// in issue.
    pub proof fn lemma_add_liquidity_keeps_wf(self, amount: int)
        requires
            self.wf(),
            self.add_liquidity_accepted(amount),
        ensures
            self.after_add_liquidity(amount).wf(),
            self.after_add_liquidity(amount).same_parameters(self),
            self.after_add_liquidity(amount).lp_token_amount > 0,
    {
    }

    /// A withdrawal pays out no more than the reserves hold and keeps the pool
    /// well formed.
    pub proof fn lemma_remove_liquidity_keeps_wf(self, shares: int)
        requires
            self.wf(),
            self.remove_liquidity_accepted(shares),
        ensures
            0 <= self.withdrawal_net(shares) <= self.withdrawal_gross(shares) <= self.token_amount,
            0 <= self.withdrawal_staked(shares) <= self.st_token_amount,
            self.min_fee <= self.withdrawal_fee(shares) <= self.max_fee,
            self.after_remove_liquidity(shares).wf(),
            self.after_remove_liquidity(shares).same_parameters(self),
    {
        if self.lp_token_amount > 0 {
            lemma_mul_div_at_most(self.token_amount, shares, self.lp_token_amount);
            lemma_mul_div_at_most(self.st_token_amount, shares, self.lp_token_amount);
        }
        self.lemma_less_fee_at_most(
            self.withdrawal_gross(shares),
            self.token_amount - self.withdrawal_gross(shares),
        );
    }

    /// A swap pays out no more than the gross amount, which the reserve
    /// covers, and keeps the pool well formed.
    pub proof fn lemma_swap_keeps_wf(self, staked: int)
        requires
            self.wf(),
            self.swap_accepted(staked),
        ensures
            0 <= self.swap_net(staked) <= self.swap_gross(staked) <= self.token_amount,
            self.min_fee <= self.swap_fee(staked) <= self.max_fee,
            self.after_swap(staked).wf(),
            self.after_swap(staked).same_parameters(self),
    {
        lemma_mul_div_monotonic(0, staked, 0, self.price, PRECISION_FACTOR as int);
        self.lemma_less_fee_at_most(
            self.swap_gross(staked),
            self.token_amount - self.swap_gross(staked),
        );
    }

    /// For a fixed pool, a larger swap never has a lower fee fraction than a
    /// smaller one.
    pub proof fn lemma_swap_fee_monotonic(self, smaller: int, larger: int)
        requires
            self.wf(),
            0 < smaller <= larger,
            self.swap_accepted(larger),
        ensures
            self.swap_accepted(smaller),
            self.swap_fee(smaller) <= self.swap_fee(larger),
    {
        lemma_mul_div_monotonic(smaller, larger, self.price, self.price, PRECISION_FACTOR as int);
        lemma_fee_monotonic(
            self.min_fee,
            self.max_fee,
            self.liquidity_target,
            self.token_amount - self.swap_gross(larger),
            self.token_amount - self.swap_gross(smaller),
        );
    }
}

} // verus!
