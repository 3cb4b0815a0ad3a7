use vstd::prelude::*;
use vstd::arithmetic::mul::lemma_mul_upper_bound;

verus! {

/// Fee rates are expressed in basis points out of this denominator.
pub const FEE_DENOM: u64 = 10_000;

/// Mathematical value of a basis-point fee: `floor(amount * rate_bps / denom)`.
pub open spec fn spec_basis_points_fee(rate_bps: int, amount: int, denom: int) -> int {
    (amount * rate_bps) / denom
}

/// Computes `floor(amount * rate_bps / denom)` with a 128-bit intermediate
/// product, so the multiplication itself can never overflow.  Returns `None`
/// when `denom` is zero or the quotient does not fit in 64 bits.
pub fn basis_points_fee(rate_bps: u64, amount: u64, denom: u64) -> (r: Option<u64>)
    ensures
        denom == 0 ==> r is None,
        denom != 0 && spec_basis_points_fee(rate_bps as int, amount as int, denom as int)
            <= u64::MAX ==> (r matches Some(f)
            && f as int == spec_basis_points_fee(rate_bps as int, amount as int, denom as int)),
        denom != 0 && spec_basis_points_fee(rate_bps as int, amount as int, denom as int)
            > u64::MAX ==> r is None,
{
    if denom == 0 {
        return None;
    }
    proof {
        lemma_mul_upper_bound(amount as int, u64::MAX as int, rate_bps as int, u64::MAX as int);
    }
    let product: u128 = (amount as u128) * (rate_bps as u128);
    let quotient: u128 = product / (denom as u128);
    if quotient > u64::MAX as u128 {
        None
    } else {
        Some(quotient as u64)
    }
}

} // verus!
