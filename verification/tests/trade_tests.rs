//! Buying and selling along the curve: plans, errors and the degenerate
//! pricing the configured constants produce.

use pump_fun::state::{
    initialize, Pubkey, PumpFunError, PumpFunState, TransactionType,
};
use pump_fun::trade::{buy, sell};

fn key(tag: u64) -> Pubkey {
    Pubkey { w0: tag, w1: tag, w2: tag, w3: tag }
}

fn fresh() -> PumpFunState {
    initialize(key(7), key(8))
}

#[test]
fn buy_commits_supply_and_exact_market_cap() {
    let state = fresh();
    let plan = buy(&state, 1_000, 42).unwrap();
    assert_eq!(plan.new_state.circulating_supply, 1_000);
    // Quoted at the pre-trade supply; the degenerate curve prices it at 0.
    assert_eq!(plan.new_state.current_price, 0);
    assert_eq!(
        plan.new_state.market_cap,
        plan.new_state.circulating_supply * plan.new_state.current_price
    );
    assert_eq!(plan.net_transfer, 0);
    assert_eq!(plan.fee_transfer, 0);
    assert_eq!(plan.lp_transfer, None);
    assert!(!plan.new_state.graduated);
    // Identities ride along untouched.
    assert_eq!(plan.new_state.fee_wallet, state.fee_wallet);
    assert_eq!(plan.new_state.owner, state.owner);
}

#[test]
fn buy_event_records_the_trade() {
    let state = fresh();
    let plan = buy(&state, 250, 1_700_000_000).unwrap();
    assert_eq!(plan.event.transaction_type, TransactionType::Buy);
    assert_eq!(plan.event.amount, 250);
    assert_eq!(plan.event.price, 0);
    assert_eq!(plan.event.market_cap, plan.new_state.market_cap);
    assert_eq!(plan.event.timestamp, 1_700_000_000);
}

#[test]
fn buy_beyond_total_supply_is_refused() {
    let state = fresh();
    // The whole total supply can be issued, but not one unit more.
    let all = buy(&state, 1_000_000_000, 0).unwrap();
    assert_eq!(all.new_state.circulating_supply, 1_000_000_000);
    assert_eq!(
        buy(&all.new_state, 1, 1),
        Err(PumpFunError::InsufficientSupply)
    );
    assert_eq!(
        buy(&state, 1_000_000_001, 0),
        Err(PumpFunError::InsufficientSupply)
    );
    assert_eq!(buy(&state, u64::MAX, 0), Err(PumpFunError::InsufficientSupply));
}

#[test]
fn buy_overflowing_price_cap_is_refused() {
    let mut state = fresh();
    // Scaling this initial price by the cap multiplier overflows a u64, so
    // the cap check itself fails before anything is priced or committed.
    state.initial_price = u64::MAX;
    assert_eq!(buy(&state, 1, 0), Err(PumpFunError::ArithmeticError));
}

#[test]
fn supply_round_trip_restores_supply() {
    let state = fresh();
    let bought = buy(&state, 5_000, 1).unwrap();
    let sold = sell(&bought.new_state, 5_000, 2).unwrap();
    assert_eq!(sold.new_state.circulating_supply, state.circulating_supply);
    // The monetary legs are asserted explicitly, not assumed equal: under
    // the degenerate constants both directions move zero value.
    assert_eq!(bought.net_transfer, 0);
    assert_eq!(bought.fee_transfer, 0);
    assert_eq!(sold.net_transfer, 0);
    assert_eq!(sold.fee_transfer, 0);
    assert_eq!(sold.token_transfer, 5_000);
}

#[test]
fn sell_beyond_circulating_supply_is_refused() {
    let state = fresh();
    let bought = buy(&state, 100, 0).unwrap();
    let before = bought.new_state;
    let refused = sell(&before, 101, 0);
    assert_eq!(refused, Err(PumpFunError::InsufficientSupply));
    // A refused sell hands back no plan, so there is nothing to commit and
    // the state stands as it was.
    assert_eq!(before.circulating_supply, 100);
}

#[test]
fn sell_prices_at_post_trade_supply() {
    let state = fresh();
    let bought = buy(&state, 400, 5).unwrap();
    let sold = sell(&bought.new_state, 150, 6).unwrap();
    assert_eq!(sold.new_state.circulating_supply, 250);
    assert_eq!(sold.new_state.current_price, 0);
    assert_eq!(
        sold.new_state.market_cap,
        sold.new_state.circulating_supply * sold.new_state.current_price
    );
    assert_eq!(sold.event.transaction_type, TransactionType::Sell);
    assert_eq!(sold.event.amount, 150);
    assert_eq!(sold.event.timestamp, 6);
    assert!(!sold.new_state.graduated);
    assert!(!sold.new_state.lp_tokens_locked);
}

#[test]
fn repeated_buys_never_graduate_under_these_constants() {
    // The degenerate base price keeps every recomputed market cap at zero,
    // so the graduation threshold is unreachable through trading: the flag
    // stays down and no liquidity transfer is ever planned.
    let mut state = fresh();
    for step in 0..20 {
        let plan = buy(&state, 40_000_000, step).unwrap();
        assert_eq!(plan.lp_transfer, None);
        assert!(!plan.new_state.graduated);
        assert_eq!(plan.new_state.market_cap, 0);
        state = plan.new_state;
    }
    assert_eq!(state.circulating_supply, 800_000_000);
}

#[test]
fn market_cap_invariant_holds_across_trades() {
    let mut state = fresh();
    for (step, amount) in [(0i64, 10u64), (1, 900), (2, 33_333), (3, 1)].into_iter() {
        let plan = buy(&state, amount, step).unwrap();
        state = plan.new_state;
        assert_eq!(state.market_cap, state.circulating_supply * state.current_price);
    }
    for (step, amount) in [(4i64, 5u64), (5, 30_000)].into_iter() {
        let plan = sell(&state, amount, step).unwrap();
        state = plan.new_state;
        assert_eq!(state.market_cap, state.circulating_supply * state.current_price);
    }
}
