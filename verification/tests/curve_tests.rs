//! The curve function and the constants it is built from.

use pump_fun::curve::{
    calculate_price, DECIMAL_MULTIPLIER, FEE_PERCENTAGE, GRADUATION_MARKET_CAP,
    INITIAL_MARKET_CAP, LP_ALLOCATION_PERCENTAGE, MAX_PRICE_MULTIPLIER, TOTAL_SUPPLY,
};
use pump_fun::state::PumpFunError;

#[test]
fn constants_match_policy() {
    assert_eq!(DECIMAL_MULTIPLIER, 1_000_000_000);
    assert_eq!(INITIAL_MARKET_CAP, 42_000);
    assert_eq!(GRADUATION_MARKET_CAP, 100_000);
    assert_eq!(TOTAL_SUPPLY, 1_000_000_000);
    assert_eq!(LP_ALLOCATION_PERCENTAGE, 20);
    assert_eq!(FEE_PERCENTAGE, 1);
    assert_eq!(MAX_PRICE_MULTIPLIER, 3);
}

#[test]
fn price_matches_floor_formula() {
    // base = 42_000 / 1_000_000_000 floors to 0, so every markup of it is 0.
    let base: u64 = INITIAL_MARKET_CAP / TOTAL_SUPPLY;
    assert_eq!(base, 0);
    for supply in [0u64, 1, 999, 10_000_000, 500_000_000, 999_999_999, TOTAL_SUPPLY] {
        let multiplier = 100 + supply * 100 / TOTAL_SUPPLY;
        let expected = base * multiplier / 100;
        assert_eq!(calculate_price(supply), Ok(expected));
        assert_eq!(calculate_price(supply), Ok(0));
    }
}

#[test]
fn price_is_nondecreasing_across_samples() {
    let mut last: u64 = 0;
    for supply in [0u64, 1, 10_000_000, 250_000_000, 500_000_000, 999_999_999] {
        let price = calculate_price(supply).unwrap();
        assert!(price >= last);
        last = price;
    }
}

#[test]
fn price_overflow_boundary() {
    // supply * 100 is the one step that can overflow: the largest supply it
    // admits is u64::MAX / 100.
    let largest_ok = u64::MAX / 100;
    assert_eq!(calculate_price(largest_ok), Ok(0));
    assert_eq!(
        calculate_price(largest_ok + 1),
        Err(PumpFunError::ArithmeticError)
    );
    assert_eq!(calculate_price(u64::MAX), Err(PumpFunError::ArithmeticError));
}
