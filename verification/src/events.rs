use vstd::prelude::*;

use crate::types::{Curve, Direction, Identity};

verus! {

/// Snapshot emitted when a market is created: both curves' seeded reserves
/// plus the supply and decimals in force.  Observational only; nothing in
/// the engine reads it back.
#[derive(Clone, PartialEq, Eq, Debug)]
pub struct LaunchEvent {
    pub creator: Identity,
    pub market: Identity,
    pub yes_mint: Identity,
    pub yes_metadata: Identity,
    pub yes_real_reserve_lamport: u64,
    pub yes_real_reserve_token: u64,
    pub yes_virtual_reserve_lamport: u64,
    pub yes_virtual_reserve_token: u64,
    pub no_mint: Identity,
    pub no_metadata: Identity,
    pub no_real_reserve_lamport: u64,
    pub no_real_reserve_token: u64,
    pub no_virtual_reserve_lamport: u64,
    pub no_virtual_reserve_token: u64,
    pub market_info: String,
    pub token_supply: u64,
    pub decimals: u8,
    /// Distinguishes the two market-creation variants.
    pub market_type: u8,
}

/// Record emitted for every completed swap: the traded amounts, the fee and
/// shift amounts, and both curves' post-trade reserves.
#[derive(Clone, Copy, PartialEq, Eq, Structural, Debug)]
pub struct TradeEvent {
    pub user: Identity,
    pub yes_token: Identity,
    pub no_token: Identity,
    pub market: Identity,
    pub sol_amount: u64,
    pub token_amount: u64,
    pub platform_fee_lamports: u64,
    pub creator_fee_lamports: u64,
    pub shift_lamports_real: u64,
    pub shift_lamports_virtual: u64,
    pub direction: Direction,
    pub token_type: Curve,
    pub timestamp: i64,
    pub yes_real_reserve_lamport: u64,
    pub yes_real_reserve_token: u64,
    pub yes_virtual_reserve_lamport: u64,
    pub yes_virtual_reserve_token: u64,
    pub no_real_reserve_lamport: u64,
    pub no_real_reserve_token: u64,
    pub no_virtual_reserve_lamport: u64,
    pub no_virtual_reserve_token: u64,
}

} // verus!
