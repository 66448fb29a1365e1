//! The fee curve.
//!
//! The fee charged on tokens leaving the pool depends on where the base-token
//! reserve would stand afterwards. At or above the liquidity target the fee is
//! the minimum; as the reserve falls towards zero the fee rises linearly to the
//! maximum.

use vstd::prelude::*;
use crate::amounts::Percentage;
use crate::amounts::TokenAmount;
use crate::fixed_point::lemma_mul_div_at_most;
use crate::fixed_point::lemma_mul_div_monotonic;
use crate::fixed_point::mul_div;
use crate::fixed_point::proportion;

verus! {

/// The part of the reserve that counts towards the target: the reserve itself,
/// capped at the target.
pub open spec fn reserve_towards_target(liquidity_target: int, reserve: int) -> int {
    if reserve < liquidity_target {
        reserve
    } else {
        liquidity_target
    }
}

/// The fee fraction for a reserve that would stand at `reserve`:
/// `max_fee - (max_fee - min_fee) * min(reserve, liquidity_target) / liquidity_target`,
/// the quotient rounded down.
pub open spec fn fee_fraction(min_fee: int, max_fee: int, liquidity_target: int, reserve: int) -> int
    recommends
        0 <= min_fee <= max_fee,
        liquidity_target > 0,
        reserve >= 0,
{
    max_fee - mul_div(
        max_fee - min_fee,
        reserve_towards_target(liquidity_target, reserve),
        liquidity_target,
    )
}

/// The fee always lies between the two bounds; it is the minimum whenever the
/// reserve reaches the target, and the maximum when the reserve is empty.
pub proof fn lemma_fee_within_bounds(min_fee: int, max_fee: int, liquidity_target: int, reserve: int)
    requires
        0 <= min_fee <= max_fee,
        liquidity_target > 0,
        reserve >= 0,
    ensures
        min_fee <= fee_fraction(min_fee, max_fee, liquidity_target, reserve) <= max_fee,
        reserve >= liquidity_target ==> fee_fraction(min_fee, max_fee, liquidity_target, reserve)
            == min_fee,
        reserve == 0 ==> fee_fraction(min_fee, max_fee, liquidity_target, reserve) == max_fee,
{
    lemma_mul_div_at_most(
        max_fee - min_fee,
        reserve_towards_target(liquidity_target, reserve),
        liquidity_target,
    );
}

/// A lower reserve never has a lower fee.
pub proof fn lemma_fee_monotonic(
    min_fee: int,
    max_fee: int,
    liquidity_target: int,
    lower_reserve: int,
    higher_reserve: int,
)
    requires
        0 <= min_fee <= max_fee,
        liquidity_target > 0,
        0 <= lower_reserve <= higher_reserve,
    ensures
        fee_fraction(min_fee, max_fee, liquidity_target, higher_reserve) <= fee_fraction(
            min_fee,
            max_fee,
            liquidity_target,
            lower_reserve,
        ),
{
    lemma_mul_div_monotonic(
        max_fee - min_fee,
        max_fee - min_fee,
        reserve_towards_target(liquidity_target, lower_reserve),
        reserve_towards_target(liquidity_target, higher_reserve),
        liquidity_target,
    );
}

/// Computes the fee fraction for a reserve that would stand at `reserve`.
pub fn fee_for_reserve(
    min_fee: Percentage,
    max_fee: Percentage,
    liquidity_target: TokenAmount,
    reserve: TokenAmount,
) -> (fee: Percentage)
    requires
        min_fee.0 <= max_fee.0,
        liquidity_target.0 > 0,
    ensures
        fee.0 == fee_fraction(
            min_fee.0 as int,
            max_fee.0 as int,
            liquidity_target.0 as int,
            reserve.0 as int,
        ),
        min_fee.0 <= fee.0 <= max_fee.0,
{
    let spread: u64 = max_fee.0 - min_fee.0;
    let counted: u64 = if reserve.0 < liquidity_target.0 {
        reserve.0
    } else {
        liquidity_target.0
    };
    let discount: u64 = proportion(spread, counted, liquidity_target.0);
    Percentage(max_fee.0 - discount)
}

} // verus!
