//! Price resolution and refresh bookkeeping for ERC20 balance metrics.
//!
//! The library decides what to ask of a chain, turns the raw answers into
//! exact prices and balances, and keeps the token states and gauge values.
//! It performs no I/O: the caller makes the contract calls and hands the
//! answers back as plain values.

pub mod amount;
pub mod address;
pub mod ratio;
pub mod price;
pub mod decimal;
pub mod config;
pub mod token;
pub mod gauge;
pub mod metrics;
pub mod state;
pub mod refresh;
pub mod scheduler;
