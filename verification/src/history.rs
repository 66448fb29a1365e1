//! Histories of calls, and what every history conserves.
//!
//! A history is a sequence of calls, each accepted by the pool that the calls
//! before it have left. [`totals`] adds up what the calls of a history have
//! moved; the two laws below relate the balances at the end of a history to
//! the balances at its start and to those totals.

use vstd::prelude::*;
use crate::fixed_point::lemma_mul_div_rounds_down;
use crate::fixed_point::PRECISION_FACTOR;
use crate::pool_model::PoolModel;

verus! {

/// One call on a pool, with its amount in scaled units.
pub enum PoolCall {
    /// Base tokens added as liquidity.
    AddLiquidity(int),
    /// Shares burned.
    RemoveLiquidity(int),
    /// Staked tokens swapped for base tokens.
    Swap(int),
}

/// What the calls of a history have moved, each total in scaled units.
pub struct Totals {
    /// Shares issued by `add_liquidity`.
    pub shares_minted: int,
    /// Shares burned by `remove_liquidity`.
    pub shares_burned: int,
    /// Base tokens put into the reserve by `add_liquidity`.
    pub tokens_deposited: int,
    /// Base tokens that left the reserve through `remove_liquidity`.
    pub tokens_withdrawn: int,
    /// Staked tokens that left the pool through `remove_liquidity`.
    pub staked_withdrawn: int,
    /// Staked tokens taken in by `swap`.
    pub staked_taken_in: int,
    /// Base tokens paid out by `swap`, after the fee.
    pub tokens_paid_out: int,
    /// Base tokens that `swap` withheld as fees: what was due at the price
    /// less what was paid.
    pub fees_retained: int,
}

impl Totals {
    /// The totals of the empty history.
    pub open spec fn zero() -> Totals {
        Totals {
            shares_minted: 0,
            shares_burned: 0,
            tokens_deposited: 0,
            tokens_withdrawn: 0,
            staked_withdrawn: 0,
            staked_taken_in: 0,
            tokens_paid_out: 0,
            fees_retained: 0,
        }
    }

    /// The sum of two totals, entry by entry.
    pub open spec fn plus(self, other: Totals) -> Totals {
        Totals {
            shares_minted: self.shares_minted + other.shares_minted,
            shares_burned: self.shares_burned + other.shares_burned,
            tokens_deposited: self.tokens_deposited + other.tokens_deposited,
            tokens_withdrawn: self.tokens_withdrawn + other.tokens_withdrawn,
            staked_withdrawn: self.staked_withdrawn + other.staked_withdrawn,
            staked_taken_in: self.staked_taken_in + other.staked_taken_in,
            tokens_paid_out: self.tokens_paid_out + other.tokens_paid_out,
            fees_retained: self.fees_retained + other.fees_retained,
        }
    }

    /// No total is negative.
    pub open spec fn non_negative(self) -> bool {
        &&& self.shares_minted >= 0
        &&& self.shares_burned >= 0
        &&& self.tokens_deposited >= 0
        &&& self.tokens_withdrawn >= 0
        &&& self.staked_withdrawn >= 0
        &&& self.staked_taken_in >= 0
        &&& self.tokens_paid_out >= 0
        &&& self.fees_retained >= 0
    }
}

impl PoolModel {
    /// Whether the pool accepts `call`.
    pub open spec fn accepts(self, call: PoolCall) -> bool {
        match call {
            PoolCall::AddLiquidity(amount) => self.add_liquidity_accepted(amount),
            PoolCall::RemoveLiquidity(shares) => self.remove_liquidity_accepted(shares),
            PoolCall::Swap(staked) => self.swap_accepted(staked),
        }
    }

    /// The pool after `call`.
    pub open spec fn after(self, call: PoolCall) -> PoolModel {
        match call {
            PoolCall::AddLiquidity(amount) => self.after_add_liquidity(amount),
            PoolCall::RemoveLiquidity(shares) => self.after_remove_liquidity(shares),
            PoolCall::Swap(staked) => self.after_swap(staked),
        }
    }

    /// What `call` moves when made on this pool.
    pub open spec fn moved_by(self, call: PoolCall) -> Totals {
        match call {
            PoolCall::AddLiquidity(amount) => Totals {
                shares_minted: amount,
                tokens_deposited: amount,
                ..Totals::zero()
            },
            PoolCall::RemoveLiquidity(shares) => Totals {
                shares_burned: shares,
                tokens_withdrawn: self.withdrawal_gross(shares),
                staked_withdrawn: self.withdrawal_staked(shares),
                ..Totals::zero()
            },
            PoolCall::Swap(staked) => Totals {
                staked_taken_in: staked,
                tokens_paid_out: self.swap_net(staked),
                fees_retained: self.swap_gross(staked) - self.swap_net(staked),
                ..Totals::zero()
            },
        }
    }

    /// The pool's holdings valued in base tokens: the base reserve, and the
    /// staked reserve at the pool's price. The unit is one
    /// `PRECISION_FACTOR`-th of a scaled unit, so that nothing is rounded.
    pub open spec fn value(self) -> int {
        self.token_amount * PRECISION_FACTOR + self.st_token_amount * self.price
    }
}

/// Whether each call of the history is accepted by the pool that the calls
/// before it have left.
pub open spec fn all_accepted(pool: PoolModel, calls: Seq<PoolCall>) -> bool
    decreases calls.len(),
{
    if calls.len() == 0 {
        true
    } else {
        pool.accepts(calls[0]) && all_accepted(pool.after(calls[0]), calls.drop_first())
    }
}

/// The pool at the end of the history.
pub open spec fn after_all(pool: PoolModel, calls: Seq<PoolCall>) -> PoolModel
    decreases calls.len(),
{
    if calls.len() == 0 {
        pool
    } else {
        after_all(pool.after(calls[0]), calls.drop_first())
    }
}

/// What the calls of the history have moved.
pub open spec fn totals(pool: PoolModel, calls: Seq<PoolCall>) -> Totals
    decreases calls.len(),
{
    if calls.len() == 0 {
        Totals::zero()
    } else {
        pool.moved_by(calls[0]).plus(totals(pool.after(calls[0]), calls.drop_first()))
    }
}

/// Whether the history burns no shares.
pub open spec fn without_withdrawal(calls: Seq<PoolCall>) -> bool {
    forall|i: int| 0 <= i < calls.len() ==> !(#[trigger] calls[i] is RemoveLiquidity)
}

/// Of a history that burns no shares, neither the first call nor any later
/// one is a withdrawal.
proof fn lemma_rest_without_withdrawal(calls: Seq<PoolCall>)
    requires
        without_withdrawal(calls),
        calls.len() > 0,
    ensures
        !(calls[0] is RemoveLiquidity),
        without_withdrawal(calls.drop_first()),
{
    let rest = calls.drop_first();
    assert forall|i: int| 0 <= i < rest.len() implies !(#[trigger] rest[i] is RemoveLiquidity) by {
        assert(rest[i] == calls[i + 1]);
    }
}

/// An accepted call keeps the pool well formed and its parameters fixed, and
/// changes each balance by exactly what the call moves.
pub proof fn lemma_call_conserves(pool: PoolModel, call: PoolCall)
    requires
        pool.wf(),
        pool.accepts(call),
    ensures
        pool.after(call).wf(),
        pool.after(call).same_parameters(pool),
        pool.moved_by(call).non_negative(),
        pool.after(call).lp_token_amount == pool.lp_token_amount + pool.moved_by(
            call,
        ).shares_minted - pool.moved_by(call).shares_burned,
        pool.after(call).token_amount == pool.token_amount + pool.moved_by(call).tokens_deposited
            - pool.moved_by(call).tokens_withdrawn - pool.moved_by(call).tokens_paid_out,
        pool.after(call).st_token_amount == pool.st_token_amount + pool.moved_by(
            call,
        ).staked_taken_in - pool.moved_by(call).staked_withdrawn,
{
    match call {
        PoolCall::AddLiquidity(amount) => {
            pool.lemma_add_liquidity_keeps_wf(amount);
        },
        PoolCall::RemoveLiquidity(shares) => {
            pool.lemma_remove_liquidity_keeps_wf(shares);
        },
        PoolCall::Swap(staked) => {
            pool.lemma_swap_keeps_wf(staked);
        },
    }
}

/// Over any history of accepted calls, every change of a balance is accounted
/// for by the calls.
///
/// The share supply at the end is the supply at the start plus the shares
/// minted less the shares burned. The base reserve is the reserve at the
/// start plus the deposits, less what withdrawals took from it and what swaps
/// paid out; the fees that swaps withheld never left it. The staked reserve is
/// the reserve at the start plus what swaps took in less what was withdrawn.
/// The pool stays well formed and its parameters never change.
pub proof fn lemma_history_conserves(pool: PoolModel, calls: Seq<PoolCall>)
    requires
        pool.wf(),
        all_accepted(pool, calls),
    ensures
        after_all(pool, calls).wf(),
        after_all(pool, calls).same_parameters(pool),
        totals(pool, calls).non_negative(),
        after_all(pool, calls).lp_token_amount == pool.lp_token_amount + totals(
            pool,
            calls,
        ).shares_minted - totals(pool, calls).shares_burned,
        after_all(pool, calls).token_amount == pool.token_amount + totals(
            pool,
            calls,
        ).tokens_deposited - totals(pool, calls).tokens_withdrawn - totals(
            pool,
            calls,
        ).tokens_paid_out,
        after_all(pool, calls).st_token_amount == pool.st_token_amount + totals(
            pool,
            calls,
        ).staked_taken_in - totals(pool, calls).staked_withdrawn,
    decreases calls.len(),
{
    if calls.len() > 0 {
        lemma_call_conserves(pool, calls[0]);
        lemma_history_conserves(pool.after(calls[0]), calls.drop_first());
    }
}

/// A deposit or a swap never lowers the value of the pool's holdings: a
/// deposit raises it by the amount, a swap by at least the fee it withholds.
pub proof fn lemma_call_never_lowers_value(pool: PoolModel, call: PoolCall)
    requires
        pool.wf(),
        pool.accepts(call),
        !(call is RemoveLiquidity),
    ensures
        pool.after(call).value() >= pool.value() + (pool.moved_by(call).tokens_deposited
            + pool.moved_by(call).fees_retained) * PRECISION_FACTOR,
        pool.after(call).value() >= pool.value(),
{
    match call {
        PoolCall::AddLiquidity(amount) => {},
        PoolCall::RemoveLiquidity(shares) => {},
        PoolCall::Swap(staked) => {
            pool.lemma_swap_keeps_wf(staked);
            lemma_mul_div_rounds_down(staked, pool.price, PRECISION_FACTOR as int);
            assert((pool.st_token_amount + staked) * pool.price == pool.st_token_amount
                * pool.price + staked * pool.price) by (nonlinear_arith);
        },
    }
}

/// Over any history of accepted deposits and swaps, the value of the pool's
/// holdings never falls: at the end it is at least the value at the start
/// plus all deposits and all fees withheld. Only a withdrawal can lower it.
pub proof fn lemma_value_never_decreases(pool: PoolModel, calls: Seq<PoolCall>)
    requires
        pool.wf(),
        all_accepted(pool, calls),
        without_withdrawal(calls),
    ensures
        after_all(pool, calls).value() >= pool.value() + (totals(pool, calls).tokens_deposited
            + totals(pool, calls).fees_retained) * PRECISION_FACTOR,
        after_all(pool, calls).value() >= pool.value(),
    decreases calls.len(),
{
    if calls.len() > 0 {
        let rest = calls.drop_first();
        lemma_rest_without_withdrawal(calls);
        lemma_call_conserves(pool, calls[0]);
        lemma_call_never_lowers_value(pool, calls[0]);
        lemma_value_never_decreases(pool.after(calls[0]), rest);
    }
}

/// A history that burns no shares withdraws nothing.
pub proof fn lemma_no_withdrawal_totals(pool: PoolModel, calls: Seq<PoolCall>)
    requires
        without_withdrawal(calls),
    ensures
        totals(pool, calls).shares_burned == 0,
        totals(pool, calls).tokens_withdrawn == 0,
        totals(pool, calls).staked_withdrawn == 0,
    decreases calls.len(),
{
    if calls.len() > 0 {
        let rest = calls.drop_first();
        lemma_rest_without_withdrawal(calls);
        lemma_no_withdrawal_totals(pool.after(calls[0]), rest);
    }
}

/// Over any history of accepted deposits and swaps, the base reserve together
/// with the fees withheld so far stands at least where the reserve stood at
/// the start, as long as the swaps have paid out no more than was deposited
/// and withheld.
pub proof fn lemma_reserve_with_fees_never_decreases(pool: PoolModel, calls: Seq<PoolCall>)
    requires
        pool.wf(),
        all_accepted(pool, calls),
        without_withdrawal(calls),
        totals(pool, calls).tokens_paid_out <= totals(pool, calls).tokens_deposited + totals(
            pool,
            calls,
        ).fees_retained,
    ensures
        after_all(pool, calls).token_amount + totals(pool, calls).fees_retained
            >= pool.token_amount,
{
    lemma_history_conserves(pool, calls);
    lemma_no_withdrawal_totals(pool, calls);
}

} // verus!
