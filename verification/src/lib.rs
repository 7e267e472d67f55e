//! A single-owner spending-limit ledger: one persisted record holding a
//! `count` (the current authorized limit) and an immutable `owner`, with
//! operations to raise, set, and consume the limit via token-transfer
//! instructions handed back to the surrounding ledger platform.

pub mod contract;
pub mod decimal;
pub mod error;
pub mod msg;
pub mod response;
pub mod state;
