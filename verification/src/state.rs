//! The shared curve state: identities, the state record and its
//! well-formedness, the error taxonomy, event records, and the
//! administration operations (initialisation, fee-authority rotation,
//! the post-graduation liquidity lock).

use vstd::prelude::*;

use crate::curve::{
    spec_price, lemma_price_degenerate, INITIAL_MARKET_CAP, MAX_PRICE_MULTIPLIER, TOTAL_SUPPLY,
};

verus! {

/// A 32-byte identity, held as four 64-bit words. The engine only ever
/// compares identities for equality; authentication itself is the caller's
/// concern.
#[derive(Clone, Copy, Debug, PartialEq, Eq, Structural)]
pub struct Pubkey {
    pub w0: u64,
    pub w1: u64,
    pub w2: u64,
    pub w3: u64,
}

/// Why an operation was refused. Every error aborts the invocation with no
/// state change.
#[derive(Clone, Copy, Debug, PartialEq, Eq, Structural)]
pub enum PumpFunError {
    /// A checked integer operation overflowed.
    ArithmeticError,
    /// A buy would be quoted above the pre-graduation price cap.
    PriceExceedsLimit,
    /// The caller is not the authority the operation requires.
    UnauthorizedOperation,
    /// The liquidity lock was requested before graduation.
    NotGraduated,
    /// The liquidity tokens are already locked.
    LPAlreadyLocked,
    /// A trade asked for more units than are available: a sell for more
    /// than is circulating, or a buy for more than remains unissued of the
    /// total supply.
    InsufficientSupply,
}

/// Which direction a trade moved.
#[derive(Clone, Copy, Debug, PartialEq, Eq, Structural)]
pub enum TransactionType {
    Buy,
    Sell,
}

/// The record a trade hands to the event sink.
#[derive(Clone, Copy, Debug, PartialEq, Eq, Structural)]
pub struct TransactionEvent {
    pub transaction_type: TransactionType,
    /// Token units traded.
    pub amount: u64,
    /// Unit price the trade was quoted at.
    pub price: u64,
    /// Market capitalisation after the trade.
    pub market_cap: u64,
    /// Wall-clock time supplied by the caller's clock source.
    pub timestamp: i64,
}

/// The shared state of one issued token. Created once by [`initialize`] and
/// mutated only by committing the outcome of a trade or an administration
/// operation.
#[derive(Clone, Copy, Debug, PartialEq, Eq, Structural)]
pub struct PumpFunState {
    /// Identity entitled to receive protocol fees; mutable by `owner`.
    pub fee_wallet: Pubkey,
    /// Identity authorised to administer the state; fixed at creation.
    pub owner: Pubkey,
    /// `circulating_supply * current_price`, recomputed by every trade.
    pub market_cap: u64,
    /// Token units currently in circulation.
    pub circulating_supply: u64,
    /// Set the first time the market cap reaches the graduation threshold;
    /// never reset.
    pub graduated: bool,
    /// Curve price at zero supply, fixed at creation.
    pub initial_price: u64,
    /// Price quoted by the most recent trade; the curve price at zero
    /// supply until the first trade.
    pub current_price: u64,
    /// Set by the one successful [`lock_lp_tokens`] call; never reset.
    pub lp_tokens_locked: bool,
}

impl PumpFunState {
    /// Well-formedness: what holds of every state outside an in-flight
    /// operation. The circulating supply never exceeds the total supply,
    /// the price matches the curve at the current supply, the liquidity
    /// lock presupposes graduation, and before graduation the price sits
    /// within the cap.
    pub open spec fn wf(self) -> bool {
        &&& self.circulating_supply <= TOTAL_SUPPLY
        &&& self.current_price as int == spec_price(self.circulating_supply as int)
        &&& self.initial_price as int == INITIAL_MARKET_CAP as int / TOTAL_SUPPLY as int
        &&& (self.lp_tokens_locked ==> self.graduated)
        &&& (!self.graduated ==> self.current_price as int <= self.initial_price as int
            * MAX_PRICE_MULTIPLIER as int)
    }
}

/// A fresh curve state: nothing in circulation, not graduated, not locked,
/// priced at the curve's zero-supply price, with the initial market cap on
/// record. Keeping one state per issued token is the caller's concern.
pub fn initialize(fee_wallet: Pubkey, owner: Pubkey) -> (state: PumpFunState)
    ensures
        state.fee_wallet == fee_wallet,
        state.owner == owner,
        state.market_cap == INITIAL_MARKET_CAP,
        state.circulating_supply == 0,
        !state.graduated,
        !state.lp_tokens_locked,
        state.initial_price as int == INITIAL_MARKET_CAP as int / TOTAL_SUPPLY as int,
        state.current_price == state.initial_price,
        state.wf(),
{
    let initial_price: u64 = INITIAL_MARKET_CAP / TOTAL_SUPPLY;
    proof {
        lemma_price_degenerate(0);
    }
    PumpFunState {
        fee_wallet,
        owner,
        market_cap: INITIAL_MARKET_CAP,
        circulating_supply: 0,
        graduated: false,
        initial_price,
        current_price: initial_price,
        lp_tokens_locked: false,
    }
}

/// Rotates the fee authority. Only the owner may do so; any other caller is
/// refused and the state is untouched.
pub fn update_fee_wallet(state: &mut PumpFunState, caller: Pubkey, new_fee_wallet: Pubkey) -> (r:
    Result<(), PumpFunError>)
    ensures
        caller == old(state).owner ==> r is Ok && *final(state) == (PumpFunState {
            fee_wallet: new_fee_wallet,
            ..*old(state)
        }),
        caller != old(state).owner ==> r == Err::<(), PumpFunError>(
            PumpFunError::UnauthorizedOperation,
        ) && *final(state) == *old(state),
        old(state).wf() ==> final(state).wf(),
{
    if caller == state.owner {
        state.fee_wallet = new_fee_wallet;
        Ok(())
    } else {
        Err(PumpFunError::UnauthorizedOperation)
    }
}

/// The one-way liquidity lock. Requires graduation, succeeds exactly once,
/// and flips nothing but the lock flag; an illegal request leaves the state
/// untouched.
pub fn lock_lp_tokens(state: &mut PumpFunState) -> (r: Result<(), PumpFunError>)
    ensures
        !old(state).graduated ==> r == Err::<(), PumpFunError>(PumpFunError::NotGraduated)
            && *final(state) == *old(state),
        old(state).graduated && old(state).lp_tokens_locked ==> r == Err::<(), PumpFunError>(
            PumpFunError::LPAlreadyLocked,
        ) && *final(state) == *old(state),
        old(state).graduated && !old(state).lp_tokens_locked ==> r is Ok && *final(state)
            == (PumpFunState { lp_tokens_locked: true, ..*old(state) }),
        old(state).wf() ==> final(state).wf(),
{
    if !state.graduated {
        return Err(PumpFunError::NotGraduated);
    }
    if state.lp_tokens_locked {
        return Err(PumpFunError::LPAlreadyLocked);
    }
    state.lp_tokens_locked = true;
    Ok(())
}

} // verus!
