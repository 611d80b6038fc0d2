//! A ledger of client accounts driven by an ordered stream of deposits,
//! withdrawals and the dispute lifecycle (dispute, resolve, chargeback).
pub mod account;
pub mod amount;
pub mod common;

pub mod errors;
pub mod transaction;
pub mod engine;
pub mod laws;
