use vstd::prelude::*;

use vstd::arithmetic::div_mod::{
    lemma_div_is_ordered, lemma_div_is_ordered_by_denominator, lemma_div_multiples_vanish,
    lemma_div_nonincreasing, lemma_div_pos_is_pos, lemma_fundamental_div_mod, lemma_mod_bound,
};
use vstd::arithmetic::mul::{
    lemma_mul_inequality, lemma_mul_is_commutative, lemma_mul_nonnegative,
};

use crate::fees::spec_basis_points_fee;
use crate::market::{
    lemma_buy_quote_bounds, lemma_rescaled_exact, spec_buy_quote, spec_rescaled, spec_sell_quote,
};

verus! {

/// Fee correctness: whenever `amount < 2^64 / rate_bps`, the basis-point
/// fee `floor(amount * rate_bps / 10000)` is representable in 64 bits, so
/// [`crate::fees::basis_points_fee`] returns exactly it.
pub proof fn lemma_fee_exact(rate_bps: u64, amount: u64)
    requires
        rate_bps > 0,
        (amount as int) < 0x1_0000_0000_0000_0000int / (rate_bps as int),
    ensures
        spec_basis_points_fee(rate_bps as int, amount as int, 10_000) == (amount as int) * (
        rate_bps as int) / 10_000,
        0 <= spec_basis_points_fee(rate_bps as int, amount as int, 10_000) <= u64::MAX,
{
    let r = rate_bps as int;
    let a = amount as int;
    let big = 0x1_0000_0000_0000_0000int;
    assert(big == u64::MAX + 1);
    lemma_mul_nonnegative(a, r);
    if a * r >= big {
        lemma_div_is_ordered(big, a * r, r);
        lemma_mul_is_commutative(a, r);
        lemma_div_multiples_vanish(a, r);
        assert(false);
    }
    lemma_div_pos_is_pos(a * r, 10_000);
    lemma_div_nonincreasing(a * r, 10_000);
}

/// Monotonicity of the buy quote: with fixed reserves, more SOL in never
/// buys fewer tokens.  (Strictness can fail: two adjacent amounts can land
/// on the same floor, e.g. on a curve whose token reserves are tiny
/// relative to its SOL reserves.)
pub proof fn lemma_buy_quote_monotone(vsol: int, vtok: int, s1: int, s2: int)
    requires
        0 <= vsol,
        0 <= vtok,
        0 < s1 <= s2,
    ensures
        spec_buy_quote(vsol, vtok, s1) <= spec_buy_quote(vsol, vtok, s2),
{
    let vt9 = spec_rescaled(vtok);
    lemma_rescaled_exact(vtok);
    lemma_mul_nonnegative(vsol, vt9);
    lemma_div_is_ordered_by_denominator(vsol * vt9, vsol + s1, vsol + s2);
    let q1 = (vsol * vt9) / (vsol + s1);
    let q2 = (vsol * vt9) / (vsol + s2);
    lemma_mul_inequality(vt9 - q1, vt9 - q2, 1_000_000);
    lemma_div_is_ordered((vt9 - q1) * 1_000_000, (vt9 - q2) * 1_000_000, 1_000_000_000);
}

/// Monotonicity of the sell quote: with fixed reserves, more tokens in
/// never fetch fewer lamports.
pub proof fn lemma_sell_quote_monotone(vsol: int, vtok: int, t1: int, t2: int)
    requires
        0 <= vsol,
        0 <= vtok,
        0 < t1 <= t2,
    ensures
        spec_sell_quote(vsol, vtok, t1) <= spec_sell_quote(vsol, vtok, t2),
{
    let vt9 = spec_rescaled(vtok);
    lemma_rescaled_exact(vtok);
    lemma_rescaled_exact(t1);
    lemma_rescaled_exact(t2);
    lemma_mul_nonnegative(vsol, vt9);
    lemma_div_is_ordered_by_denominator(
        vsol * vt9,
        vt9 + spec_rescaled(t1),
        vt9 + spec_rescaled(t2),
    );
}

/// Round trip: quoting a buy of `sol_in` lamports and then quoting a sell
/// of the tokens it yielded, against the same unshifted reserves, never
/// returns more SOL than went in.  The curve cannot manufacture value.
///
/// The quadratic hypothesis keeps the buy from being vanishingly small
/// against the curve's scale; without it, flooring can hand the seller a
/// few lamports more than the dust that went in.  Any trade on a curve with
/// `vsol^2` at most `2 * sol_in^2 * (1000 * vtok)` — every realistic size
/// on a realistically seeded curve — satisfies it.
pub proof fn lemma_round_trip(vsol: int, vtok: int, sol_in: int)
    requires
        0 <= vsol,
        0 <= vtok,
        0 < sol_in,
        vsol * vsol <= 2 * sol_in * sol_in * spec_rescaled(vtok),
        spec_buy_quote(vsol, vtok, sol_in) > 0,
    ensures
        spec_sell_quote(vsol, vtok, spec_buy_quote(vsol, vtok, sol_in)) <= sol_in,
{
    let a = vsol;
    let s = sol_in;
    let d = a + s;
    let vt9 = spec_rescaled(vtok);
    lemma_rescaled_exact(vtok);
    lemma_buy_quote_bounds(a, vtok, s);
    let q = (a * vt9) / d;
    let rem = (a * vt9) % d;
    lemma_mul_nonnegative(a, vt9);
    lemma_fundamental_div_mod(a * vt9, d);
    lemma_mod_bound(a * vt9, d);
    let out9 = vt9 - q;
    let t = spec_buy_quote(vsol, vtok, sol_in);
    lemma_rescaled_exact(t);
    // 1000 * t <= out9, from t == floor(out9 * 1e6 / 1e9).
    lemma_mul_nonnegative(out9, 1_000_000);
    lemma_fundamental_div_mod(out9 * 1_000_000, 1_000_000_000);
    lemma_mod_bound(out9 * 1_000_000, 1_000_000_000);
    assert(1000 * t <= out9) by (nonlinear_arith)
        requires
            out9 * 1_000_000 == 1_000_000_000 * t + (out9 * 1_000_000) % 1_000_000_000,
            0 <= (out9 * 1_000_000) % 1_000_000_000,
    ;
    let tin9 = spec_rescaled(t);
    let d2 = vt9 + tin9;
    // t > 0 forces vtok > 0: a zero-token curve quotes zero tokens.
    if vtok == 0 {
        assert(vt9 == 0);
        assert(q == 0) by {
            assert(a * 0 == 0) by (nonlinear_arith);
        }
        assert(t <= 0);
    }
    assert(vtok >= 1);
    assert(d2 >= 1000);
    lemma_mul_nonnegative(a, vt9);
    if a <= s {
        // The sell can never pay out more than the whole SOL reserve.
        lemma_div_pos_is_pos(a * vt9, d2);
        assert(spec_sell_quote(vsol, vtok, t) <= a);
    } else {
        // Key bound: 1000*t*(a - s) <= s*vt9.
        assert(out9 * d == s * vt9 + rem) by (nonlinear_arith)
            requires
                a * vt9 == d * q + rem,
                out9 == vt9 - q,
                d == a + s,
        ;
        assert(rem * (a - s) <= 2 * s * s * vt9) by (nonlinear_arith)
            requires
                rem < d,
                d == a + s,
                0 <= rem,
                s < a,
                a * a <= 2 * s * s * vt9,
                0 <= s,
        ;
        assert(out9 * (a - s) * d <= s * vt9 * d) by (nonlinear_arith)
            requires
                out9 * d == s * vt9 + rem,
                rem * (a - s) <= 2 * s * s * vt9,
                d == a + s,
                s < a,
                0 < s,
        ;
        assert(out9 * (a - s) <= s * vt9) by (nonlinear_arith)
            requires
                out9 * (a - s) * d <= s * vt9 * d,
                0 < d,
        ;
        assert(1000 * t * (a - s) <= out9 * (a - s)) by (nonlinear_arith)
            requires
                1000 * t <= out9,
                s < a,
        ;
        // Hence the sell-side quotient stays at or above a - s.
        assert(a * vt9 >= (a - s) * d2) by (nonlinear_arith)
            requires
                1000 * t * (a - s) <= s * vt9,
                d2 == vt9 + 1000 * t,
                tin9 == 1000 * t,
                s < a,
        ;
        lemma_mul_is_commutative(a - s, d2);
        lemma_div_is_ordered((a - s) * d2, a * vt9, d2);
        lemma_div_multiples_vanish(a - s, d2);
        assert((a * vt9) / d2 >= a - s);
    }
}

/// One step of trading on a single curve, as the ledger records it: the
/// token amount a successful buy removed from, or a successful sell
/// returned to, the curve's real token reserves.
#[derive(Clone, Copy, PartialEq, Eq, Structural, Debug)]
pub enum TradeStep {
    Buy { tokens: u64 },
    Sell { tokens: u64 },
}

/// Real token reserves after a sequence of steps on a curve seeded with
/// `seed` tokens.
pub open spec fn real_tokens_after(seed: int, steps: Seq<TradeStep>) -> int
    decreases steps.len(),
{
    if steps.len() == 0 {
        seed
    } else {
        let prev = real_tokens_after(seed, steps.drop_last());
        match steps.last() {
            TradeStep::Buy { tokens } => prev - tokens,
            TradeStep::Sell { tokens } => prev + tokens,
        }
    }
}

/// Whether every step was admissible when it ran.  A buy is admitted by
/// [`crate::market::Market::apply_buy`] only while its token amount stays
/// strictly below the real reserves; a sell can return at most the tokens
/// outstanding — `seed` minus the current reserves — since the custody
/// layer cannot take in more tokens than the curve ever paid out.
pub open spec fn steps_admissible(seed: int, steps: Seq<TradeStep>) -> bool
    decreases steps.len(),
{
    if steps.len() == 0 {
        true
    } else {
        let prev = real_tokens_after(seed, steps.drop_last());
        steps_admissible(seed, steps.drop_last()) && (match steps.last() {
            TradeStep::Buy { tokens } => tokens < prev,
            TradeStep::Sell { tokens } => tokens <= seed - prev,
        })
    }
}

/// Reserve-bound invariant: across any admissible sequence of buys and
/// sells on one curve, the real token reserves never go negative — in fact
/// they stay positive — and never exceed the initial seed.
pub proof fn lemma_real_tokens_bounded(seed: int, steps: Seq<TradeStep>)
    requires
        0 <= seed,
        steps_admissible(seed, steps),
    ensures
        0 <= real_tokens_after(seed, steps) <= seed,
    decreases steps.len(),
{
    if steps.len() > 0 {
        lemma_real_tokens_bounded(seed, steps.drop_last());
    }
}

} // verus!
