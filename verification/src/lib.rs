//! Escrow lifecycle engine.
//!
//! A fungible deposit is held on behalf of a buyer until an authorized
//! admin settles it: either by splitting it between a treasury and a
//! fulfillment destination (release) or by returning it whole to the
//! buyer (refund). This crate contains the verified core: the data
//! model and its invariants, the fee-split arithmetic, the
//! authorization rules, and the state machine that governs each
//! deposit from creation to terminal settlement.
//!
//! The engine itself moves no funds. Each operation validates its
//! inputs, updates the in-memory records, and hands back the transfer
//! legs that the hosting environment must execute atomically against
//! its ledger.

pub mod engine;
pub mod errors;
pub mod fees;
pub mod state;
