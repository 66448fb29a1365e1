//! The pool and its four state transitions.
//!
//! A pool is created once by [`LpPool::init`] and then changed in place by
//! [`LpPool::add_liquidity`], [`LpPool::remove_liquidity`] and
//! [`LpPool::swap`]. Each of them checks its input against the current state
//! before it writes any field, so a rejected call changes nothing.

use vstd::prelude::*;
use crate::amounts::LpTokenAmount;
use crate::amounts::Percentage;
use crate::amounts::Price;
use crate::amounts::StakedTokenAmount;
use crate::amounts::TokenAmount;
use crate::error::LpPoolError;
use crate::fee::fee_for_reserve;
use crate::fixed_point::checked_mul_div;
use crate::fixed_point::proportion;
use crate::fixed_point::PRECISION_FACTOR;
use crate::pool_model::PoolModel;

verus! {

/// The state of the pool.
#[derive(Debug, PartialEq, Eq)]
pub struct LpPool {
    /// Base tokens paid per staked token, before the fee. Fixed at
    /// initialization.
    pub price: Price,
    /// The reserve of base tokens.
    pub token_amount: TokenAmount,
    /// The reserve of staked tokens.
    pub st_token_amount: StakedTokenAmount,
    /// The shares issued and not yet burned.
    pub lp_token_amount: LpTokenAmount,
    /// The reserve at and above which the fee is at its minimum. Fixed at
    /// initialization.
    pub liquidity_target: TokenAmount,
    /// The lowest fee fraction. Fixed at initialization.
    pub min_fee: Percentage,
    /// The highest fee fraction. Fixed at initialization.
    pub max_fee: Percentage,
}

/// What a swap would pay, and at which fee.
#[derive(Clone, Copy, Debug, PartialEq, Eq)]
pub struct SwapQuote {
    /// The base tokens due at the pool's price, before the fee.
    pub gross_tokens_out: TokenAmount,
    /// The fee fraction on this swap.
    pub fee: Percentage,
    /// The base tokens paid to the caller.
    pub net_tokens_out: TokenAmount,
}

impl View for LpPool {
    type V = PoolModel;

    open spec fn view(&self) -> PoolModel {
        PoolModel {
            price: self.price@,
            token_amount: self.token_amount@,
            st_token_amount: self.st_token_amount@,
            lp_token_amount: self.lp_token_amount@,
            liquidity_target: self.liquidity_target@,
            min_fee: self.min_fee@,
            max_fee: self.max_fee@,
        }
    }
}

impl Clone for LpPool {
    fn clone(&self) -> (copy: LpPool)
        ensures
            copy == *self,
    {
        LpPool {
            price: self.price,
            token_amount: self.token_amount,
            st_token_amount: self.st_token_amount,
            lp_token_amount: self.lp_token_amount,
            liquidity_target: self.liquidity_target,
            min_fee: self.min_fee,
            max_fee: self.max_fee,
        }
    }
}

impl LpPool {
    /// The parameters are in order: a positive target and
    /// `min_fee <= max_fee <= 100%`.
    pub open spec fn wf(&self) -> bool {
        self@.wf()
    }

    /// Creates a pool with the given price, target and fee bounds, seeded
    /// with `liquidity_target` base tokens and as many shares.
    ///
    /// Rejected with `InvalidFee` unless the target is positive and
    /// `min_fee <= max_fee <= 100%`.
    pub fn init(
        price: Price,
        liquidity_target: TokenAmount,
        min_fee: Percentage,
        max_fee: Percentage,
    ) -> (r: Result<LpPool, LpPoolError>)
        ensures
            match r {
                Ok(pool) => {
                    &&& PoolModel::init_accepted(liquidity_target@, min_fee@, max_fee@)
                    &&& pool@ == PoolModel::initial(price@, liquidity_target@, min_fee@, max_fee@)
                    &&& pool.wf()
                },
                Err(e) => {
                    &&& !PoolModel::init_accepted(liquidity_target@, min_fee@, max_fee@)
                    &&& e == LpPoolError::InvalidFee
                },
            },
    {
        if max_fee.0 > PRECISION_FACTOR || min_fee.0 > max_fee.0 || liquidity_target.0 == 0 {
            return Err(LpPoolError::InvalidFee);
        }
        Ok(
            LpPool {
                price,
                token_amount: liquidity_target,
                st_token_amount: StakedTokenAmount(0),
                lp_token_amount: LpTokenAmount(liquidity_target.0),
                liquidity_target,
                min_fee,
                max_fee,
            },
        )
    }

    /// Adds `token_amount` base tokens to the reserve and issues as many
    /// shares, which are returned.
    ///
    /// Rejected with `InvalidTokenAmount` when the amount is zero. The reserve
    /// and the share supply must have room for the amount.
    pub fn add_liquidity(&mut self, token_amount: TokenAmount) -> (r: Result<
        LpTokenAmount,
        LpPoolError,
    >)
        requires
            old(self).wf(),
            old(self)@.token_amount + token_amount@ <= u64::MAX,
            old(self)@.lp_token_amount + token_amount@ <= u64::MAX,
        ensures
            match r {
                Ok(minted) => {
                    &&& old(self)@.add_liquidity_accepted(token_amount@)
                    &&& minted@ == token_amount@
                    &&& final(self)@ == old(self)@.after_add_liquidity(token_amount@)
                },
                Err(e) => {
                    &&& !old(self)@.add_liquidity_accepted(token_amount@)
                    &&& e == LpPoolError::InvalidTokenAmount
                    &&& *final(self) == *old(self)
                },
            },
            final(self).wf(),
    {
        if token_amount.0 == 0 {
            return Err(LpPoolError::InvalidTokenAmount);
        }
        self.token_amount = TokenAmount(self.token_amount.0 + token_amount.0);
        self.lp_token_amount = LpTokenAmount(self.lp_token_amount.0 + token_amount.0);
        Ok(LpTokenAmount(token_amount.0))
    }

    /// Burns `lp_token_amount` shares and pays out the part of each reserve
    /// that they stand for: the base tokens less the fee, and the staked
    /// tokens.
    ///
    /// The fee is the one for the base reserve that the withdrawal leaves. The
    /// base reserve falls by the whole part, fee included.
    ///
    /// Rejected with `InsufficientLiquidity` when more shares are given than
    /// the pool has issued.
    pub fn remove_liquidity(&mut self, lp_token_amount: LpTokenAmount) -> (r: Result<
        (TokenAmount, StakedTokenAmount),
        LpPoolError,
    >)
        requires
            old(self).wf(),
        ensures
            match r {
                Ok((tokens_out, staked_tokens_out)) => {
                    &&& old(self)@.remove_liquidity_accepted(lp_token_amount@)
                    &&& tokens_out@ == old(self)@.withdrawal_net(lp_token_amount@)
                    &&& staked_tokens_out@ == old(self)@.withdrawal_staked(lp_token_amount@)
                    &&& final(self)@ == old(self)@.after_remove_liquidity(lp_token_amount@)
                },
                Err(e) => {
                    &&& !old(self)@.remove_liquidity_accepted(lp_token_amount@)
                    &&& e == LpPoolError::InsufficientLiquidity
                    &&& *final(self) == *old(self)
                },
            },
            final(self).wf(),
    {
        let supply: u64 = self.lp_token_amount.0;
        if lp_token_amount.0 > supply {
            return Err(LpPoolError::InsufficientLiquidity);
        }
        proof {
            self@.lemma_remove_liquidity_keeps_wf(lp_token_amount@);
        }
        let mut gross: u64 = 0;
        let mut staked_out: u64 = 0;
        if supply > 0 {
            gross = proportion(self.token_amount.0, lp_token_amount.0, supply);
            staked_out = proportion(self.st_token_amount.0, lp_token_amount.0, supply);
        }
        let reserve_after: u64 = self.token_amount.0 - gross;
        let fee: Percentage = fee_for_reserve(
            self.min_fee,
            self.max_fee,
            self.liquidity_target,
            TokenAmount(reserve_after),
        );
        let net: u64 = proportion(gross, PRECISION_FACTOR - fee.0, PRECISION_FACTOR);
        self.lp_token_amount = LpTokenAmount(supply - lp_token_amount.0);
        self.token_amount = TokenAmount(reserve_after);
        self.st_token_amount = StakedTokenAmount(self.st_token_amount.0 - staked_out);
        Ok((TokenAmount(net), StakedTokenAmount(staked_out)))
    }

    /// Prices a swap of `staked_token_amount` staked tokens without changing
    /// the pool.
    ///
    /// Rejected with `InvalidTokenAmount` when the amount is zero, and with
    /// `InsufficientStakedTokens` when the gross payment exceeds the base
    /// reserve.
    pub fn quote_swap(&self, staked_token_amount: StakedTokenAmount) -> (r: Result<
        SwapQuote,
        LpPoolError,
    >)
        requires
            self.wf(),
        ensures
            match r {
                Ok(quote) => {
                    &&& self@.swap_accepted(staked_token_amount@)
                    &&& quote.gross_tokens_out@ == self@.swap_gross(staked_token_amount@)
                    &&& quote.fee@ == self@.swap_fee(staked_token_amount@)
                    &&& quote.net_tokens_out@ == self@.swap_net(staked_token_amount@)
                },
                Err(e) => {
                    &&& !self@.swap_accepted(staked_token_amount@)
                    &&& e == self@.swap_rejection(staked_token_amount@)
                },
            },
    {
        if staked_token_amount.0 == 0 {
            return Err(LpPoolError::InvalidTokenAmount);
        }
        let gross: u64 = match checked_mul_div(
            staked_token_amount.0,
            self.price.0,
            PRECISION_FACTOR,
        ) {
            Some(g) => g,
            None => {
                return Err(LpPoolError::InsufficientStakedTokens);
            },
        };
        if gross > self.token_amount.0 {
            return Err(LpPoolError::InsufficientStakedTokens);
        }
        let reserve_after: u64 = self.token_amount.0 - gross;
        let fee: Percentage = fee_for_reserve(
            self.min_fee,
            self.max_fee,
            self.liquidity_target,
            TokenAmount(reserve_after),
        );
        let net: u64 = proportion(gross, PRECISION_FACTOR - fee.0, PRECISION_FACTOR);
        Ok(SwapQuote { gross_tokens_out: TokenAmount(gross), fee, net_tokens_out: TokenAmount(net) })
    }

    /// Takes in `staked_token_amount` staked tokens and pays out base tokens
    /// at the pool's price less the fee. Returns the amount paid.
    ///
    /// The fee is the one for the base reserve that paying the gross amount
    /// would leave; the withheld part stays in the reserve.
    ///
    /// Rejected with `InvalidTokenAmount` when the amount is zero, and with
    /// `InsufficientStakedTokens` when the gross payment exceeds the base
    /// reserve. Where the swap is accepted, the staked reserve must have room
    /// for the amount.
    pub fn swap(&mut self, staked_token_amount: StakedTokenAmount) -> (r: Result<
        TokenAmount,
        LpPoolError,
    >)
        requires
            old(self).wf(),
            old(self)@.swap_accepted(staked_token_amount@) ==> old(self)@.st_token_amount
                + staked_token_amount@ <= u64::MAX,
        ensures
            match r {
                Ok(tokens_out) => {
                    &&& old(self)@.swap_accepted(staked_token_amount@)
                    &&& tokens_out@ == old(self)@.swap_net(staked_token_amount@)
                    &&& final(self)@ == old(self)@.after_swap(staked_token_amount@)
                },
                Err(e) => {
                    &&& !old(self)@.swap_accepted(staked_token_amount@)
                    &&& e == old(self)@.swap_rejection(staked_token_amount@)
                    &&& *final(self) == *old(self)
                },
            },
            final(self).wf(),
    {
        let quote: SwapQuote = match self.quote_swap(staked_token_amount) {
            Ok(q) => q,
            Err(e) => {
                return Err(e);
            },
        };
        proof {
            self@.lemma_swap_keeps_wf(staked_token_amount@);
        }
        self.st_token_amount = StakedTokenAmount(self.st_token_amount.0 + staked_token_amount.0);
        self.token_amount = TokenAmount(self.token_amount.0 - quote.net_tokens_out.0);
        Ok(quote.net_tokens_out)
    }
}

} // verus!
