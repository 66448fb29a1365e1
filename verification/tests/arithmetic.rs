use lp_pool::amounts::Percentage;
use lp_pool::amounts::TokenAmount;
use lp_pool::error::LpPoolError;
use lp_pool::fee::fee_for_reserve;
use lp_pool::fixed_point::checked_mul_div;
use lp_pool::fixed_point::percent_to_fraction;
use lp_pool::fixed_point::proportion;
use lp_pool::fixed_point::PRECISION_FACTOR;

const MIN_FEE: Percentage = Percentage(4_294_967);
const MAX_FEE: Percentage = Percentage(386_547_057);
const TARGET: TokenAmount = TokenAmount(386_547_056_640);

#[test]
fn precision_factor_is_two_to_the_thirty_second() {
    assert_eq!(PRECISION_FACTOR, 1u64 << 32);
}

#[test]
fn checked_mul_div_rescales_a_product() {
    // 6.0 times 1.5 is 9.0.
    assert_eq!(
        checked_mul_div(25_769_803_776, 6_442_450_944, PRECISION_FACTOR),
        Some(38_654_705_664)
    );
    assert_eq!(checked_mul_div(7, 3, 2), Some(10));
    assert_eq!(checked_mul_div(0, u64::MAX, 1), Some(0));
}

#[test]
fn checked_mul_div_takes_the_product_in_full_width() {
    assert_eq!(
        checked_mul_div(u64::MAX, u64::MAX, u64::MAX),
        Some(u64::MAX)
    );
    assert_eq!(
        checked_mul_div(u64::MAX, PRECISION_FACTOR, PRECISION_FACTOR),
        Some(u64::MAX)
    );
}

#[test]
fn checked_mul_div_reports_what_does_not_fit() {
    assert_eq!(checked_mul_div(u64::MAX, 2, 1), None);
    assert_eq!(
        checked_mul_div(u64::MAX, PRECISION_FACTOR + 1, PRECISION_FACTOR),
        None
    );
    assert_eq!(checked_mul_div(1, 1, 0), None);
}

#[test]
fn proportion_rounds_down() {
    assert_eq!(proportion(10, 1, 3), 3);
    assert_eq!(proportion(10, 2, 3), 6);
    assert_eq!(proportion(10, 3, 3), 10);
    assert_eq!(proportion(10, 0, 3), 0);
    assert_eq!(proportion(u64::MAX, u64::MAX, u64::MAX), u64::MAX);
    assert_eq!(proportion(u64::MAX, 1, 2), u64::MAX / 2);
}

#[test]
fn percent_to_fraction_rounds_half_up() {
    assert_eq!(percent_to_fraction(0), 0);
    assert_eq!(percent_to_fraction(49), 0);
    assert_eq!(percent_to_fraction(50), 1);
    assert_eq!(percent_to_fraction(149), 1);
    assert_eq!(percent_to_fraction(150), 2);
    assert_eq!(percent_to_fraction(100 * PRECISION_FACTOR), PRECISION_FACTOR);
    assert_eq!(percent_to_fraction(u64::MAX), 184_467_440_737_095_516);
    assert_eq!(Percentage::from_percent(429_496_730), MIN_FEE);
    assert_eq!(Percentage::from_percent(38_654_705_664), MAX_FEE);
}

#[test]
fn fee_is_the_minimum_at_and_above_the_target() {
    assert_eq!(fee_for_reserve(MIN_FEE, MAX_FEE, TARGET, TARGET), MIN_FEE);
    assert_eq!(
        fee_for_reserve(MIN_FEE, MAX_FEE, TARGET, TokenAmount(u64::MAX)),
        MIN_FEE
    );
}

#[test]
fn fee_is_the_maximum_for_an_empty_reserve() {
    assert_eq!(fee_for_reserve(MIN_FEE, MAX_FEE, TARGET, TokenAmount(0)), MAX_FEE);
}

#[test]
fn fee_is_interpolated_below_the_target() {
    // Half the target: halfway between the bounds, rounded up.
    assert_eq!(
        fee_for_reserve(MIN_FEE, MAX_FEE, TARGET, TokenAmount(TARGET.0 / 2)),
        Percentage(195_421_012)
    );
    assert_eq!(
        fee_for_reserve(MIN_FEE, MAX_FEE, TARGET, TokenAmount(TARGET.0 - 1)),
        Percentage(4_294_968)
    );
    assert_eq!(
        fee_for_reserve(MIN_FEE, MAX_FEE, TARGET, TokenAmount(1)),
        MAX_FEE
    );
}

#[test]
fn fee_never_falls_as_the_reserve_falls() {
    let mut reserve = TARGET.0 + 1000;
    let mut last = fee_for_reserve(MIN_FEE, MAX_FEE, TARGET, TokenAmount(reserve));
    while reserve > 0 {
        reserve -= reserve / 7 + 1;
        let fee = fee_for_reserve(MIN_FEE, MAX_FEE, TARGET, TokenAmount(reserve));
        assert!(fee.0 >= last.0);
        assert!(MIN_FEE.0 <= fee.0 && fee.0 <= MAX_FEE.0);
        last = fee;
    }
    assert_eq!(last, MAX_FEE);
}

#[test]
fn each_rejection_has_its_message() {
    assert_eq!(LpPoolError::InvalidFee.message(), "Invalid fee values provided.");
    assert_eq!(
        LpPoolError::InsufficientLiquidity.message(),
        "Insufficient liquidity in the pool."
    );
    assert_eq!(
        LpPoolError::InsufficientStakedTokens.message(),
        "Insufficient staked tokens in the pool."
    );
    assert_eq!(
        LpPoolError::InvalidTokenAmount.message(),
        "Invalid token amount provided."
    );
}
