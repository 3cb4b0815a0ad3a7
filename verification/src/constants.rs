use vstd::prelude::*;

verus! {

/// Decimals of the native currency (lamports per unit of SOL).
pub const LAMPORT_DECIMALS: u8 = 9;

/// Default seed for a curve's virtual token reserves.
pub const INITIAL_VIRTUAL_TOKEN_RESERVES: u64 = 1_000_000_000_000_000;

/// Default seed for a curve's virtual SOL reserves.
pub const INITIAL_VIRTUAL_SOL_RESERVES: u64 = 20_000_000_000;

/// Default seed for a curve's real token reserves.
pub const INITIAL_REAL_TOKEN_RESERVES: u64 = 1_000_000_000_000_000;

} // verus!
