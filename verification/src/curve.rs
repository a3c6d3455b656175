//! The bonding curve: fixed policy constants and the supply-to-price
//! function every trade is quoted against.

use vstd::prelude::*;
use vstd::arithmetic::div_mod::lemma_div_is_ordered;
use vstd::arithmetic::mul::lemma_mul_inequality;

use crate::state::PumpFunError;

verus! {

/// Number of decimal places of the token.
pub const DECIMALS: u8 = 9;

/// Scaling factor between whole token units and base units.
pub const DECIMAL_MULTIPLIER: u64 = 1_000_000_000;

/// Market capitalisation assigned to a freshly initialised curve.
pub const INITIAL_MARKET_CAP: u64 = 42_000;

/// Market capitalisation at which the token graduates.
pub const GRADUATION_MARKET_CAP: u64 = 100_000;

/// Total number of token units the curve is sized for.
pub const TOTAL_SUPPLY: u64 = 1_000_000_000;

/// Percentage of the total supply reserved for liquidity on graduation.
pub const LP_ALLOCATION_PERCENTAGE: u8 = 20;

/// Percentage fee charged on every trade.
pub const FEE_PERCENTAGE: u8 = 1;

/// Before graduation, the quoted price may not exceed this multiple of the
/// initial price.
pub const MAX_PRICE_MULTIPLIER: u8 = 3;

/// The unit price the linear bonding curve assigns to a circulating supply,
/// as exact integer mathematics (every division is a floor division):
/// a base price of `INITIAL_MARKET_CAP / TOTAL_SUPPLY`, marked up by one
/// percent for each whole percent of the total supply in circulation.
pub open spec fn spec_price(supply: int) -> int {
    let base_price: int = INITIAL_MARKET_CAP as int / TOTAL_SUPPLY as int;
    let supply_percentage: int = supply * 100 / TOTAL_SUPPLY as int;
    base_price * (100 + supply_percentage) / 100
}

/// The checked arithmetic in [`calculate_price`] succeeds exactly when
/// `supply * 100` fits in a `u64`: that product is the only step of the
/// formula that can overflow under the configured constants.
pub open spec fn price_defined(supply: int) -> bool {
    supply * 100 <= u64::MAX
}

/// With the configured constants the curve is degenerate: the base price
/// `INITIAL_MARKET_CAP / TOTAL_SUPPLY` floors to zero, so every supply is
/// priced at zero. This records that consequence of the constants rather
/// than papering over it; the price-cap check and the graduation threshold
/// are both unreachable through trading while it holds.
pub proof fn lemma_price_degenerate(supply: int)
    ensures
        spec_price(supply) == 0,
{
    let supply_percentage: int = supply * 100 / TOTAL_SUPPLY as int;
    assert(INITIAL_MARKET_CAP as int / TOTAL_SUPPLY as int == 0);
    assert(0 * (100 + supply_percentage) == 0) by (nonlinear_arith);
}

/// The curve never decreases as supply grows: each step of the formula is
/// monotone in the supply.
pub proof fn lemma_curve_monotone(s1: int, s2: int)
    requires
        0 <= s1 <= s2 < TOTAL_SUPPLY,
    ensures
        spec_price(s1) <= spec_price(s2),
{
    let base_price: int = INITIAL_MARKET_CAP as int / TOTAL_SUPPLY as int;
    let p1: int = s1 * 100 / TOTAL_SUPPLY as int;
    let p2: int = s2 * 100 / TOTAL_SUPPLY as int;
    lemma_mul_inequality(s1, s2, 100);
    lemma_div_is_ordered(s1 * 100, s2 * 100, TOTAL_SUPPLY as int);
    lemma_mul_inequality(100 + p1, 100 + p2, base_price);
    assert(base_price * (100 + p1) == (100 + p1) * base_price) by (nonlinear_arith);
    assert(base_price * (100 + p2) == (100 + p2) * base_price) by (nonlinear_arith);
    lemma_div_is_ordered(base_price * (100 + p1), base_price * (100 + p2), 100);
}

/// The price of the bonding curve at `current_supply`. Every arithmetic
/// step is checked: the result is exactly `spec_price` whenever that
/// computation stays within `u64` bounds, and `ArithmeticError` otherwise.
pub fn calculate_price(current_supply: u64) -> (r: Result<u64, PumpFunError>)
    ensures
        price_defined(current_supply as int) ==> r == Ok::<u64, PumpFunError>(
            spec_price(current_supply as int) as u64,
        ),
        !price_defined(current_supply as int) ==> r == Err::<u64, PumpFunError>(
            PumpFunError::ArithmeticError,
        ),
        r is Ok ==> r->Ok_0 as int == spec_price(current_supply as int),
{
    let base_price: u64 = INITIAL_MARKET_CAP / TOTAL_SUPPLY;
    let scaled: u64 = match current_supply.checked_mul(100) {
        Some(v) => v,
        None => {
            return Err(PumpFunError::ArithmeticError);
        },
    };
    let supply_percentage: u64 = match scaled.checked_div(TOTAL_SUPPLY) {
        Some(v) => v,
        None => {
            return Err(PumpFunError::ArithmeticError);
        },
    };
    let price_multiplier: u64 = match 100u64.checked_add(supply_percentage) {
        Some(v) => v,
        None => {
            return Err(PumpFunError::ArithmeticError);
        },
    };
    let raised: u64 = match base_price.checked_mul(price_multiplier) {
        Some(v) => v,
        None => {
            return Err(PumpFunError::ArithmeticError);
        },
    };
    match raised.checked_div(100) {
        Some(v) => Ok(v),
        None => Err(PumpFunError::ArithmeticError),
    }
}

} // verus!
