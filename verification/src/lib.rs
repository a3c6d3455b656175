//! A bonding-curve token-issuance engine.
//!
//! One shared [`state::PumpFunState`] record tracks a token's circulating
//! supply, price and graduation status. The [`trade`] module prices acquire
//! (buy) and release (sell) operations along a fixed linear curve, charges a
//! protocol fee, and triggers a one-time liquidity reservation once the
//! market cap crosses a threshold. Every arithmetic step is checked; any
//! overflow aborts the operation with an error and no state change.
//!
//! The engine itself performs no value transfers: a trade computes a plan
//! (the transfers owed and the state snapshot to commit), and the caller
//! performs the transfers through its ledger and commits the snapshot only
//! if all of them succeed.

pub mod curve;
pub mod state;
pub mod trade;
