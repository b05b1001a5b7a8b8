//! Dual-asset collateralized mint/burn accounting for a fungible receipt
//! token.
//!
//! The engine issues a receipt balance when a depositor supplies a fixed-rate
//! combination of a native-style asset and an externally-held token asset,
//! and reverses that issuance, releasing the backing assets proportionally,
//! when the receipt is redeemed. Every handler is pure computation over the
//! rate configuration and a modeled receipt ledger; the surrounding host owns
//! persistence and the dispatch of the outbound transfer instructions the
//! engine produces.

pub mod contract;
pub mod error;
pub mod laws;
pub mod ledger;
pub mod msg;
pub mod rate;
pub mod state;
