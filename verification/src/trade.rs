//! The trading operations: acquire (buy) and release (sell).
//!
//! A trade does not move value itself. It validates the request against the
//! current state, prices it on the curve, and returns a *plan*: the
//! transfer amounts the caller owes its ledger and the state snapshot to
//! commit once — and only if — every transfer has succeeded. Aborting the
//! plan therefore leaves the state untouched, which gives each invocation
//! its all-or-nothing character.

use vstd::prelude::*;

use crate::curve::{
    calculate_price, price_defined, spec_price, DECIMAL_MULTIPLIER, FEE_PERCENTAGE,
    GRADUATION_MARKET_CAP, LP_ALLOCATION_PERCENTAGE, MAX_PRICE_MULTIPLIER, TOTAL_SUPPLY,
};
use crate::state::{PumpFunError, PumpFunState, TransactionEvent, TransactionType};

verus! {

/// Everything a successful buy commits to.
#[derive(Clone, Copy, Debug, PartialEq, Eq, Structural)]
pub struct BuyPlan {
    /// The snapshot to store once every transfer has succeeded.
    pub new_state: PumpFunState,
    /// Cost net of fee, in base units: buyer to recipient.
    pub net_transfer: u64,
    /// Protocol fee, in base units: buyer to fee authority.
    pub fee_transfer: u64,
    /// On the buy that graduates the token, the liquidity reservation in
    /// whole token units (buyer to recipient); `None` on every other buy.
    pub lp_transfer: Option<u64>,
    /// The record for the event sink.
    pub event: TransactionEvent,
}

/// Everything a successful sell commits to.
#[derive(Clone, Copy, Debug, PartialEq, Eq, Structural)]
pub struct SellPlan {
    /// The snapshot to store once every transfer has succeeded.
    pub new_state: PumpFunState,
    /// Token units the seller returns to the pool.
    pub token_transfer: u64,
    /// Payout net of fee, in base units: pool reserve to seller.
    pub net_transfer: u64,
    /// Protocol fee, in base units: pool reserve to fee authority.
    pub fee_transfer: u64,
    /// The record for the event sink.
    pub event: TransactionEvent,
}

/// The exact outcome of a buy: the checks, checked arithmetic and state
/// update of [`buy`], in the order the operation performs them. A buy is
/// quoted at the *pre-trade* supply, and is refused outright when it would
/// push the circulating supply above the total supply.
pub open spec fn spec_buy(state: PumpFunState, amount: u64, timestamp: i64) -> Result<
    BuyPlan,
    PumpFunError,
> {
    let supply: int = state.circulating_supply as int;
    if supply + amount as int > TOTAL_SUPPLY as int {
        Err(PumpFunError::InsufficientSupply)
    } else if !price_defined(supply) {
        Err(PumpFunError::ArithmeticError)
    } else {
        let price: int = spec_price(supply);
        let price_cap: int = state.initial_price as int * MAX_PRICE_MULTIPLIER as int;
        if !state.graduated && price_cap > u64::MAX {
            Err(PumpFunError::ArithmeticError)
        } else if !state.graduated && price > price_cap {
            Err(PumpFunError::PriceExceedsLimit)
        } else if price * amount as int > u64::MAX {
            Err(PumpFunError::ArithmeticError)
        } else {
            let total_cost: int = price * amount as int;
            let fee: int = total_cost * FEE_PERCENTAGE as int / 100;
            if (total_cost - fee) * DECIMAL_MULTIPLIER as int > u64::MAX {
                Err(PumpFunError::ArithmeticError)
            } else if fee * DECIMAL_MULTIPLIER as int > u64::MAX {
                Err(PumpFunError::ArithmeticError)
            } else if supply + amount as int > u64::MAX {
                Err(PumpFunError::ArithmeticError)
            } else {
                let new_supply: int = supply + amount as int;
                if new_supply * price > u64::MAX {
                    Err(PumpFunError::ArithmeticError)
                } else {
                    let market_cap: int = new_supply * price;
                    let crosses: bool = !state.graduated && market_cap
                        >= GRADUATION_MARKET_CAP as int;
                    Ok(
                        BuyPlan {
                            new_state: PumpFunState {
                                circulating_supply: new_supply as u64,
                                current_price: price as u64,
                                market_cap: market_cap as u64,
                                graduated: state.graduated || crosses,
                                ..state
                            },
                            net_transfer: ((total_cost - fee) * DECIMAL_MULTIPLIER as int) as u64,
                            fee_transfer: (fee * DECIMAL_MULTIPLIER as int) as u64,
                            lp_transfer: if crosses {
                                Some(
                                    (TOTAL_SUPPLY as int * LP_ALLOCATION_PERCENTAGE as int
                                        / 100) as u64,
                                )
                            } else {
                                None
                            },
                            event: TransactionEvent {
                                transaction_type: TransactionType::Buy,
                                amount,
                                price: price as u64,
                                market_cap: market_cap as u64,
                                timestamp,
                            },
                        },
                    )
                }
            }
        }
    }
}

/// The exact outcome of a sell: the checks, checked arithmetic and state
/// update of [`sell`], in the order the operation performs them. A sell is
/// quoted at the *post-trade* supply — deliberately asymmetric with [`buy`].
pub open spec fn spec_sell(state: PumpFunState, amount: u64, timestamp: i64) -> Result<
    SellPlan,
    PumpFunError,
> {
    let supply: int = state.circulating_supply as int;
    if supply < amount as int {
        Err(PumpFunError::InsufficientSupply)
    } else {
        let remaining: int = supply - amount as int;
        if !price_defined(remaining) {
            Err(PumpFunError::ArithmeticError)
        } else {
            let price: int = spec_price(remaining);
            if price * amount as int > u64::MAX {
                Err(PumpFunError::ArithmeticError)
            } else {
                let total_payout: int = price * amount as int;
                let fee: int = total_payout * FEE_PERCENTAGE as int / 100;
                if (total_payout - fee) * DECIMAL_MULTIPLIER as int > u64::MAX {
                    Err(PumpFunError::ArithmeticError)
                } else if fee * DECIMAL_MULTIPLIER as int > u64::MAX {
                    Err(PumpFunError::ArithmeticError)
                } else if remaining * price > u64::MAX {
                    Err(PumpFunError::ArithmeticError)
                } else {
                    let market_cap: int = remaining * price;
                    Ok(
                        SellPlan {
                            new_state: PumpFunState {
                                circulating_supply: remaining as u64,
                                current_price: price as u64,
                                market_cap: market_cap as u64,
                                ..state
                            },
                            token_transfer: amount,
                            net_transfer: ((total_payout - fee)
                                * DECIMAL_MULTIPLIER as int) as u64,
                            fee_transfer: (fee * DECIMAL_MULTIPLIER as int) as u64,
                            event: TransactionEvent {
                                transaction_type: TransactionType::Sell,
                                amount,
                                price: price as u64,
                                market_cap: market_cap as u64,
                                timestamp,
                            },
                        },
                    )
                }
            }
        }
    }
}

/// Acquire `amount` token units. Refuses a purchase that would push the
/// circulating supply above the total supply, prices the batch at the
/// pre-trade supply, enforces the pre-graduation price cap, charges the
/// protocol fee, and — on the buy whose market cap first reaches the
/// graduation threshold — plans the one-time liquidity reservation. The
/// result is exactly [`spec_buy`]; the named clauses below restate its
/// load-bearing consequences.
pub fn buy(state: &PumpFunState, amount: u64, timestamp: i64) -> (r: Result<
    BuyPlan,
    PumpFunError,
>)
    ensures
        r == spec_buy(*state, amount, timestamp),
        // The supply ceiling: a buy beyond the total supply is refused, and
        // nothing else is refused for that reason; whatever is committed
        // stays within the ceiling.
        r == Err::<BuyPlan, PumpFunError>(PumpFunError::InsufficientSupply)
            <==> state.circulating_supply as int + amount as int > TOTAL_SUPPLY as int,
        r matches Ok(plan) ==> plan.new_state.circulating_supply <= TOTAL_SUPPLY,
        // The committed market cap is exactly supply times price.
        r matches Ok(plan) ==> plan.new_state.market_cap as int
            == plan.new_state.circulating_supply as int * plan.new_state.current_price as int,
        // Supply advances by the amount bought; price is the pre-trade quote.
        r matches Ok(plan) ==> plan.new_state.circulating_supply as int
            == state.circulating_supply as int + amount as int
            && plan.new_state.current_price as int == spec_price(state.circulating_supply as int),
        // Graduation is monotone, and the liquidity reservation of exactly
        // one fifth of the total supply rides on the buy that graduates.
        r matches Ok(plan) ==> (state.graduated ==> plan.new_state.graduated)
            && (plan.lp_transfer is Some <==> (!state.graduated && plan.new_state.graduated))
            && (plan.new_state.graduated <==> (state.graduated || plan.new_state.market_cap
            >= GRADUATION_MARKET_CAP))
            && (plan.lp_transfer is Some ==> plan.lp_transfer == Some(
            (TOTAL_SUPPLY as int * LP_ALLOCATION_PERCENTAGE as int / 100) as u64,
        )),
        // Identities, the initial price and the liquidity lock never move.
        r matches Ok(plan) ==> plan.new_state.fee_wallet == state.fee_wallet
            && plan.new_state.owner == state.owner && plan.new_state.initial_price
            == state.initial_price && plan.new_state.lp_tokens_locked == state.lp_tokens_locked,
        // The pre-graduation cap: a quote above it is refused, and nothing
        // else is refused for that reason.
        r == Err::<BuyPlan, PumpFunError>(PumpFunError::PriceExceedsLimit) <==> (
        state.circulating_supply as int + amount as int <= TOTAL_SUPPLY as int
            && !state.graduated && price_defined(state.circulating_supply as int)
            && state.initial_price as int * MAX_PRICE_MULTIPLIER as int <= u64::MAX
            && spec_price(state.circulating_supply as int) > state.initial_price as int
            * MAX_PRICE_MULTIPLIER as int),
        // A well-formed state is committed well formed.
        state.wf() ==> (r matches Ok(plan) ==> plan.new_state.wf()),
{
    proof {
        crate::curve::lemma_price_degenerate(state.circulating_supply as int);
        crate::curve::lemma_price_degenerate(state.circulating_supply as int + amount as int);
    }
    let unissued: u64 = match TOTAL_SUPPLY.checked_sub(state.circulating_supply) {
        Some(v) => v,
        None => {
            return Err(PumpFunError::InsufficientSupply);
        },
    };
    if amount > unissued {
        return Err(PumpFunError::InsufficientSupply);
    }
    let price: u64 = match calculate_price(state.circulating_supply) {
        Ok(p) => p,
        Err(e) => {
            return Err(e);
        },
    };
    if !state.graduated {
        let price_cap: u64 = match state.initial_price.checked_mul(MAX_PRICE_MULTIPLIER as u64) {
            Some(v) => v,
            None => {
                return Err(PumpFunError::ArithmeticError);
            },
        };
        if price > price_cap {
            return Err(PumpFunError::PriceExceedsLimit);
        }
    }
    let total_cost: u64 = match price.checked_mul(amount) {
        Some(v) => v,
        None => {
            return Err(PumpFunError::ArithmeticError);
        },
    };
    let fee_raw: u64 = match total_cost.checked_mul(FEE_PERCENTAGE as u64) {
        Some(v) => v,
        None => {
            return Err(PumpFunError::ArithmeticError);
        },
    };
    let fee: u64 = match fee_raw.checked_div(100) {
        Some(v) => v,
        None => {
            return Err(PumpFunError::ArithmeticError);
        },
    };
    proof {
        assert(total_cost / 100 <= total_cost) by (nonlinear_arith);
    }
    let net: u64 = match total_cost.checked_sub(fee) {
        Some(v) => v,
        None => {
            return Err(PumpFunError::ArithmeticError);
        },
    };
    let net_transfer: u64 = match net.checked_mul(DECIMAL_MULTIPLIER) {
        Some(v) => v,
        None => {
            return Err(PumpFunError::ArithmeticError);
        },
    };
    let fee_transfer: u64 = match fee.checked_mul(DECIMAL_MULTIPLIER) {
        Some(v) => v,
        None => {
            return Err(PumpFunError::ArithmeticError);
        },
    };
    let new_supply: u64 = match state.circulating_supply.checked_add(amount) {
        Some(v) => v,
        None => {
            return Err(PumpFunError::ArithmeticError);
        },
    };
    let market_cap: u64 = match new_supply.checked_mul(price) {
        Some(v) => v,
        None => {
            return Err(PumpFunError::ArithmeticError);
        },
    };
    let crosses: bool = !state.graduated && market_cap >= GRADUATION_MARKET_CAP;
    let lp_transfer: Option<u64> = if crosses {
        let lp_raw: u64 = match TOTAL_SUPPLY.checked_mul(LP_ALLOCATION_PERCENTAGE as u64) {
            Some(v) => v,
            None => {
                return Err(PumpFunError::ArithmeticError);
            },
        };
        match lp_raw.checked_div(100) {
            Some(v) => Some(v),
            None => {
                return Err(PumpFunError::ArithmeticError);
            },
        }
    } else {
        None
    };
    Ok(
        BuyPlan {
            new_state: PumpFunState {
                circulating_supply: new_supply,
                current_price: price,
                market_cap,
                graduated: state.graduated || crosses,
                ..*state
            },
            net_transfer,
            fee_transfer,
            lp_transfer,
            event: TransactionEvent {
                transaction_type: TransactionType::Buy,
                amount,
                price,
                market_cap,
                timestamp,
            },
        },
    )
}

/// Release `amount` token units. Requires that much to be in circulation,
/// prices the batch at the post-trade supply, and charges the protocol fee.
/// The result is exactly [`spec_sell`]; the named clauses below restate its
/// load-bearing consequences.
pub fn sell(state: &PumpFunState, amount: u64, timestamp: i64) -> (r: Result<
    SellPlan,
    PumpFunError,
>)
    ensures
        r == spec_sell(*state, amount, timestamp),
        // A sell of more than is circulating is refused, and nothing else
        // is refused for that reason.
        r == Err::<SellPlan, PumpFunError>(PumpFunError::InsufficientSupply) <==> amount
            > state.circulating_supply,
        // The committed market cap is exactly supply times price.
        r matches Ok(plan) ==> plan.new_state.market_cap as int
            == plan.new_state.circulating_supply as int * plan.new_state.current_price as int,
        // Supply shrinks by the amount sold; price is the post-trade quote.
        r matches Ok(plan) ==> plan.new_state.circulating_supply as int
            == state.circulating_supply as int - amount as int
            && plan.new_state.current_price as int == spec_price(
            state.circulating_supply as int - amount as int,
        ) && plan.token_transfer == amount,
        // A sell never touches graduation, the lock, the identities or the
        // initial price.
        r matches Ok(plan) ==> plan.new_state.graduated == state.graduated
            && plan.new_state.lp_tokens_locked == state.lp_tokens_locked
            && plan.new_state.fee_wallet == state.fee_wallet && plan.new_state.owner == state.owner
            && plan.new_state.initial_price == state.initial_price,
        // A well-formed state is committed well formed.
        state.wf() ==> (r matches Ok(plan) ==> plan.new_state.wf()),
{
    proof {
        crate::curve::lemma_price_degenerate(state.circulating_supply as int - amount as int);
    }
    if state.circulating_supply < amount {
        return Err(PumpFunError::InsufficientSupply);
    }
    let remaining: u64 = match state.circulating_supply.checked_sub(amount) {
        Some(v) => v,
        None => {
            return Err(PumpFunError::ArithmeticError);
        },
    };
    let price: u64 = match calculate_price(remaining) {
        Ok(p) => p,
        Err(e) => {
            return Err(e);
        },
    };
    let total_payout: u64 = match price.checked_mul(amount) {
        Some(v) => v,
        None => {
            return Err(PumpFunError::ArithmeticError);
        },
    };
    let fee_raw: u64 = match total_payout.checked_mul(FEE_PERCENTAGE as u64) {
        Some(v) => v,
        None => {
            return Err(PumpFunError::ArithmeticError);
        },
    };
    let fee: u64 = match fee_raw.checked_div(100) {
        Some(v) => v,
        None => {
            return Err(PumpFunError::ArithmeticError);
        },
    };
    proof {
        assert(total_payout / 100 <= total_payout) by (nonlinear_arith);
    }
    let net: u64 = match total_payout.checked_sub(fee) {
        Some(v) => v,
        None => {
            return Err(PumpFunError::ArithmeticError);
        },
    };
    let net_transfer: u64 = match net.checked_mul(DECIMAL_MULTIPLIER) {
        Some(v) => v,
        None => {
            return Err(PumpFunError::ArithmeticError);
        },
    };
    let fee_transfer: u64 = match fee.checked_mul(DECIMAL_MULTIPLIER) {
        Some(v) => v,
        None => {
            return Err(PumpFunError::ArithmeticError);
        },
    };
    let market_cap: u64 = match remaining.checked_mul(price) {
        Some(v) => v,
        None => {
            return Err(PumpFunError::ArithmeticError);
        },
    };
    Ok(
        SellPlan {
            new_state: PumpFunState {
                circulating_supply: remaining,
                current_price: price,
                market_cap,
                ..*state
            },
            token_transfer: amount,
            net_transfer,
            fee_transfer,
            event: TransactionEvent {
                transaction_type: TransactionType::Sell,
                amount,
                price,
                market_cap,
                timestamp,
            },
        },
    )
}

/// Law: acquiring `amount` and then releasing the same `amount` returns the
/// circulating supply to its starting value — and the release leg of such a
/// round trip can never fail. The monetary legs need not cancel, because a
/// buy is quoted at the pre-trade supply and a sell at the post-trade
/// supply; what each leg pays is fixed exactly by [`spec_buy`] and
/// [`spec_sell`] instead.
pub proof fn lemma_supply_round_trip(state: PumpFunState, amount: u64, t1: i64, t2: i64)
    requires
        spec_buy(state, amount, t1) is Ok,
    ensures
        spec_sell(spec_buy(state, amount, t1)->Ok_0.new_state, amount, t2) is Ok,
        spec_sell(
            spec_buy(state, amount, t1)->Ok_0.new_state,
            amount,
            t2,
        )->Ok_0.new_state.circulating_supply == state.circulating_supply,
{
    let supply: int = state.circulating_supply as int;
    let price: int = spec_price(supply);
    crate::curve::lemma_price_degenerate(supply);
    assert(supply * price <= (supply + amount as int) * price && 0 <= supply * price) by (
    nonlinear_arith)
        requires
            0 <= supply,
            0 <= amount as int,
            0 <= price,
    ;
}

/// Law: the liquidity reservation happens at most once. Once a buy has
/// graduated the token, no later buy carries another liquidity transfer.
pub proof fn lemma_graduation_once(state: PumpFunState, a1: u64, t1: i64, a2: u64, t2: i64)
    requires
        spec_buy(state, a1, t1) is Ok,
        spec_buy(state, a1, t1)->Ok_0.lp_transfer is Some,
        spec_buy(spec_buy(state, a1, t1)->Ok_0.new_state, a2, t2) is Ok,
    ensures
        spec_buy(spec_buy(state, a1, t1)->Ok_0.new_state, a2, t2)->Ok_0.lp_transfer is None,
{
}

} // verus!
