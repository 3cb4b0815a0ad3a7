//! Pricing and accounting engine for a dual-sided bonding-curve exchange.
//!
//! Each market runs two independent constant-product curves (YES and NO)
//! against a shared pool of native currency.  This crate holds the verified
//! core: reserve state, buy/sell quoting, basis-point fees, the real-reserve
//! reconciliation rule, the cross-curve liquidity shift, and the swap
//! orchestrator.  Custody, transfers and account plumbing are the host's
//! business; the engine only computes amounts and updates its own counters.

pub mod config;
pub mod constants;
pub mod errors;
pub mod events;
pub mod fees;
pub mod launch;
pub mod laws;
pub mod market;
pub mod types;
pub mod whitelist;
