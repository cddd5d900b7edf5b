//! Swap execution engine for a constant-product market maker.
//!
//! Given a request to convert a fixed amount of one asset into another, the
//! engine locates a matching liquidity pool among the accounts it is handed,
//! quotes the swap, enforces the caller's minimum output and assembles the
//! call that the pool program expects. Issuing that call is left to the
//! caller: every function here is a computation on values.

pub mod account;
pub mod dex;
pub mod error;
pub mod instruction;
pub mod processor;
pub mod state;
pub mod wire;
