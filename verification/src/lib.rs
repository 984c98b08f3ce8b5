//! Accrual and liquidity-accounting engine of a collateralized lending
//! market: a pool of one stable asset, an interest-bearing receipt token,
//! aggregate borrower liabilities, protocol reserves and a reward emission
//! stream, all advancing on a clock measured in seconds.
//!
//! The engine is pure: every operation is a function from the market state
//! and plain inputs (timestamps, balances, externally queried rates) to a new
//! state. Chain storage, message dispatch and collaborator queries live
//! outside this crate and hand it plain values.

pub mod config;
pub mod decimal;
pub mod epoch;
pub mod error;
pub mod exchange;
pub mod interest;
pub mod laws;
pub mod market;
pub mod reward;
pub mod state;
