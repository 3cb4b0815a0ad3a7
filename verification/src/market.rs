use vstd::prelude::*;

use vstd::arithmetic::div_mod::{
    lemma_div_is_ordered, lemma_div_multiples_vanish, lemma_div_pos_is_pos,
    lemma_fundamental_div_mod, lemma_mod_bound,
};
use vstd::arithmetic::mul::{
    lemma_mul_inequality, lemma_mul_is_commutative, lemma_mul_nonnegative, lemma_mul_upper_bound,
};

use crate::config::Config;
use crate::errors::TakesFunError;
use crate::events::TradeEvent;
use crate::fees::{basis_points_fee, spec_basis_points_fee, FEE_DENOM};
use crate::types::{Curve, Direction, Identity};

verus! {

/// Per-market reserve state: for each of the two curves, the virtual
/// (pricing) and real (backing) SOL and token counters, plus the identities
/// the custody layer derives addresses from.
///
/// Curve-index convention: every accessor in this module takes the [`Curve`]
/// it reads or writes, and the cross-curve shift inside [`Market::swap`] is
/// applied to `curve.other()` explicitly at the call site.  No function
/// secretly inverts the index.
pub struct Market {
    pub yes_token_mint: Identity,
    pub no_token_mint: Identity,
    pub creator: Identity,
    pub real_yes_token_reserves: u64,
    pub real_yes_sol_reserves: u64,
    pub virtual_yes_sol_reserves: u64,
    pub virtual_yes_token_reserves: u64,
    pub virtual_no_sol_reserves: u64,
    pub virtual_no_token_reserves: u64,
    pub real_no_token_reserves: u64,
    pub real_no_sol_reserves: u64,
    pub is_completed: bool,
    pub market_info: String,
}

/// Outcome of a successful sell applied to the ledger.
#[derive(Clone, Copy, PartialEq, Eq, Structural, Debug)]
pub struct SellResult {
    pub token_amount: u64,
    pub sol_amount: u64,
}

/// Outcome of a successful buy applied to the ledger.
#[derive(Clone, Copy, PartialEq, Eq, Structural, Debug)]
pub struct BuyResult {
    pub token_amount: u64,
    pub sol_amount: u64,
}

/// Token reserves rescaled from the token's 6-decimal basis to the 9-decimal
/// lamport basis, as the quoting formulas do it: multiply first, divide
/// after, so nothing is truncated away.
pub open spec fn spec_rescaled(tokens: int) -> int {
    (tokens * 1_000_000_000) / 1_000_000
}

/// The rescale is exact: it multiplies by 1000.
pub proof fn lemma_rescaled_exact(tokens: int)
    requires
        0 <= tokens,
    ensures
        spec_rescaled(tokens) == 1000 * tokens,
{
    assert(tokens * 1_000_000_000 == 1_000_000 * (1000 * tokens)) by (nonlinear_arith);
    lemma_div_multiples_vanish(1000 * tokens, 1_000_000);
}

/// For a positive divisor `a`, `a * b` stays within `m` exactly when `b` is
/// at most `m / a`.  This is how the quoting code tests for 128-bit overflow
/// without performing the multiplication.
pub proof fn lemma_mul_le_iff_quot(a: int, b: int, m: int)
    requires
        1 <= a,
        0 <= b,
        0 <= m,
    ensures
        a * b <= m <==> b <= m / a,
{
    if a * b <= m {
        lemma_div_is_ordered(a * b, m, a);
        lemma_div_multiples_vanish(b, a);
    }
    if b <= m / a {
        lemma_div_pos_is_pos(m, a);
        lemma_mul_inequality(b, m / a, a);
        lemma_fundamental_div_mod(m, a);
        lemma_mod_bound(m, a);
        lemma_mul_is_commutative(a, m / a);
        lemma_mul_is_commutative(b, a);
        assert(a * b <= a * (m / a));
        assert(a * (m / a) <= m);
    }
}

/// Dividing `x * y` by a divisor at least `x` yields at most `y`.
pub proof fn lemma_mul_div_shrinks(x: int, y: int, d: int)
    requires
        0 <= x <= d,
        0 <= y,
        0 < d,
    ensures
        (x * y) / d <= y,
{
    lemma_mul_inequality(x, d, y);
    lemma_div_is_ordered(x * y, d * y, d);
    lemma_div_multiples_vanish(y, d);
}

/// Whether a buy quote is defined: a zero input is rejected, and the 128-bit
/// product of the virtual SOL reserves with the rescaled token reserves must
/// be representable.
pub open spec fn spec_buy_quote_defined(vsol: int, vtok: int, sol_in: int) -> bool {
    sol_in > 0 && vsol * spec_rescaled(vtok) <= u128::MAX
}

/// Tokens paid out for `sol_in` lamports on a curve with virtual reserves
/// `(vsol, vtok)`: the constant-product formula at 9-decimal basis, rescaled
/// back down to the token's 6 decimals.
pub open spec fn spec_buy_quote(vsol: int, vtok: int, sol_in: int) -> int {
    let vt9 = spec_rescaled(vtok);
    let new_tokens = (vsol * vt9) / (vsol + sol_in);
    ((vt9 - new_tokens) * 1_000_000) / 1_000_000_000
}

/// Whether a sell quote is defined; the condition mirrors the buy side.
pub open spec fn spec_sell_quote_defined(vsol: int, vtok: int, token_in: int) -> bool {
    token_in > 0 && vsol * spec_rescaled(vtok) <= u128::MAX
}

/// Lamports paid out for `token_in` tokens sold into the curve.
pub open spec fn spec_sell_quote(vsol: int, vtok: int, token_in: int) -> int {
    let vt9 = spec_rescaled(vtok);
    let tin9 = spec_rescaled(token_in);
    vsol - (vsol * vt9) / (vt9 + tin9)
}

/// A defined buy quote pays out between zero and `vtok` tokens.
pub proof fn lemma_buy_quote_bounds(vsol: int, vtok: int, sol_in: int)
    requires
        0 <= vsol,
        0 <= vtok,
        1 <= sol_in,
    ensures
        0 <= spec_buy_quote(vsol, vtok, sol_in) <= vtok,
{
    lemma_rescaled_exact(vtok);
    let vt9 = spec_rescaled(vtok);
    let d = vsol + sol_in;
    let new_tokens = (vsol * vt9) / d;
    lemma_mul_nonnegative(vsol, vt9);
    lemma_div_pos_is_pos(vsol * vt9, d);
    lemma_mul_div_shrinks(vsol, vt9, d);
    assert(0 <= new_tokens <= vt9);
    let out9 = vt9 - new_tokens;
    lemma_mul_nonnegative(out9, 1_000_000);
    lemma_div_pos_is_pos(out9 * 1_000_000, 1_000_000_000);
    lemma_mul_inequality(out9, vt9, 1_000_000);
    lemma_div_is_ordered(out9 * 1_000_000, vt9 * 1_000_000, 1_000_000_000);
    assert(vt9 * 1_000_000 == 1_000_000_000 * vtok) by (nonlinear_arith)
        requires
            vt9 == 1000 * vtok,
    ;
    lemma_div_multiples_vanish(vtok, 1_000_000_000);
}

/// A defined sell quote pays out between zero and `vsol` lamports.
pub proof fn lemma_sell_quote_bounds(vsol: int, vtok: int, token_in: int)
    requires
        0 <= vsol,
        0 <= vtok,
        1 <= token_in,
    ensures
        0 <= spec_sell_quote(vsol, vtok, token_in) <= vsol,
{
    lemma_rescaled_exact(vtok);
    lemma_rescaled_exact(token_in);
    let vt9 = spec_rescaled(vtok);
    let tin9 = spec_rescaled(token_in);
    let d = vt9 + tin9;
    lemma_mul_is_commutative(vsol, vt9);
    lemma_mul_nonnegative(vt9, vsol);
    lemma_div_pos_is_pos(vt9 * vsol, d);
    lemma_mul_div_shrinks(vt9, vsol, d);
}

impl Market {
    /// Virtual SOL reserves of `curve`.
    pub open spec fn spec_virtual_sol(self, curve: Curve) -> u64 {
        match curve {
            Curve::Yes => self.virtual_yes_sol_reserves,
            Curve::No => self.virtual_no_sol_reserves,
        }
    }

    /// Virtual token reserves of `curve`.
    pub open spec fn spec_virtual_token(self, curve: Curve) -> u64 {
        match curve {
            Curve::Yes => self.virtual_yes_token_reserves,
            Curve::No => self.virtual_no_token_reserves,
        }
    }

    /// Real SOL reserves of `curve`.
    pub open spec fn spec_real_sol(self, curve: Curve) -> u64 {
        match curve {
            Curve::Yes => self.real_yes_sol_reserves,
            Curve::No => self.real_no_sol_reserves,
        }
    }

    /// Real token reserves of `curve`.
    pub open spec fn spec_real_token(self, curve: Curve) -> u64 {
        match curve {
            Curve::Yes => self.real_yes_token_reserves,
            Curve::No => self.real_no_token_reserves,
        }
    }

    /// The market with `curve`'s four reserve counters replaced and
    /// everything else unchanged.
    pub open spec fn spec_with_curve(
        self,
        curve: Curve,
        vsol: u64,
        vtok: u64,
        rsol: u64,
        rtok: u64,
    ) -> Market {
        match curve {
            Curve::Yes => (Market {
                virtual_yes_sol_reserves: vsol,
                virtual_yes_token_reserves: vtok,
                real_yes_sol_reserves: rsol,
                real_yes_token_reserves: rtok,
                ..self
            }),
            Curve::No => (Market {
                virtual_no_sol_reserves: vsol,
                virtual_no_token_reserves: vtok,
                real_no_sol_reserves: rsol,
                real_no_token_reserves: rtok,
                ..self
            }),
        }
    }

    /// Executable counterpart of [`Market::spec_virtual_sol`].
    pub fn virtual_sol(&self, curve: Curve) -> (r: u64)
        ensures
            r == self.spec_virtual_sol(curve),
    {
        match curve {
            Curve::Yes => self.virtual_yes_sol_reserves,
            Curve::No => self.virtual_no_sol_reserves,
        }
    }

    /// Executable counterpart of [`Market::spec_virtual_token`].
    pub fn virtual_token(&self, curve: Curve) -> (r: u64)
        ensures
            r == self.spec_virtual_token(curve),
    {
        match curve {
            Curve::Yes => self.virtual_yes_token_reserves,
            Curve::No => self.virtual_no_token_reserves,
        }
    }

    /// Executable counterpart of [`Market::spec_real_sol`].
    pub fn real_sol(&self, curve: Curve) -> (r: u64)
        ensures
            r == self.spec_real_sol(curve),
    {
        match curve {
            Curve::Yes => self.real_yes_sol_reserves,
            Curve::No => self.real_no_sol_reserves,
        }
    }

    /// Executable counterpart of [`Market::spec_real_token`].
    pub fn real_token(&self, curve: Curve) -> (r: u64)
        ensures
            r == self.spec_real_token(curve),
    {
        match curve {
            Curve::Yes => self.real_yes_token_reserves,
            Curve::No => self.real_no_token_reserves,
        }
    }

    /// Stores all four reserve counters of `curve` at once.
    fn set_curve_reserves(&mut self, curve: Curve, vsol: u64, vtok: u64, rsol: u64, rtok: u64)
        ensures
            *final(self) == old(self).spec_with_curve(curve, vsol, vtok, rsol, rtok),
    {
        match curve {
            Curve::Yes => {
                self.virtual_yes_sol_reserves = vsol;
                self.virtual_yes_token_reserves = vtok;
                self.real_yes_sol_reserves = rsol;
                self.real_yes_token_reserves = rtok;
            },
            Curve::No => {
                self.virtual_no_sol_reserves = vsol;
                self.virtual_no_token_reserves = vtok;
                self.real_no_sol_reserves = rsol;
                self.real_no_token_reserves = rtok;
            },
        }
    }

    /// Quotes a buy: how many tokens `sol_amount` lamports purchase on
    /// `curve` at its current virtual reserves.  `None` on a zero amount or
    /// when an intermediate product exceeds 128 bits.  Pure: no reserve is
    /// touched.
    pub fn get_tokens_for_buy_sol(&self, sol_amount: u64, curve: Curve) -> (r: Option<u64>)
        ensures
            r is Some <==> spec_buy_quote_defined(
                self.spec_virtual_sol(curve) as int,
                self.spec_virtual_token(curve) as int,
                sol_amount as int,
            ),
            r matches Some(t) ==> t as int == spec_buy_quote(
                self.spec_virtual_sol(curve) as int,
                self.spec_virtual_token(curve) as int,
                sol_amount as int,
            ),
    {
        if sol_amount == 0 {
            return None;
        }
        let vsol: u128 = self.virtual_sol(curve) as u128;
        let vtok: u128 = self.virtual_token(curve) as u128;
        proof {
            lemma_mul_upper_bound(vtok as int, u64::MAX as int, 1_000_000_000, 1_000_000_000);
        }
        let vt9: u128 = vtok * 1_000_000_000 / 1_000_000;
        proof {
            lemma_rescaled_exact(vtok as int);
        }
        if vsol > 0 && vt9 > u128::MAX / vsol {
            proof {
                lemma_mul_le_iff_quot(vsol as int, vt9 as int, u128::MAX as int);
            }
            return None;
        }
        proof {
            if vsol > 0 {
                lemma_mul_le_iff_quot(vsol as int, vt9 as int, u128::MAX as int);
            } else {
                assert((vsol as int) * (vt9 as int) == 0) by (nonlinear_arith)
                    requires
                        vsol as int == 0,
                ;
            }
        }
        let num: u128 = vsol * vt9;
        let new_sol: u128 = vsol + sol_amount as u128;
        let new_tokens: u128 = num / new_sol;
        proof {
            lemma_mul_div_shrinks(vsol as int, vt9 as int, new_sol as int);
        }
        let out9: u128 = vt9 - new_tokens;
        proof {
            lemma_mul_upper_bound(out9 as int, vt9 as int, 1_000_000, 1_000_000);
            lemma_mul_upper_bound(vt9 as int, u64::MAX as int * 1000, 1_000_000, 1_000_000);
        }
        let out6: u128 = out9 * 1_000_000 / 1_000_000_000;
        proof {
            lemma_buy_quote_bounds(vsol as int, vtok as int, sol_amount as int);
        }
        Some(out6 as u64)
    }

    /// Quotes a sell: how many lamports `token_amount` tokens fetch on
    /// `curve` at its current virtual reserves.  `None` on a zero amount or
    /// 128-bit overflow.  Pure.
    pub fn get_sol_for_sell_tokens(&self, token_amount: u64, curve: Curve) -> (r: Option<u64>)
        ensures
            r is Some <==> spec_sell_quote_defined(
                self.spec_virtual_sol(curve) as int,
                self.spec_virtual_token(curve) as int,
                token_amount as int,
            ),
            r matches Some(s) ==> s as int == spec_sell_quote(
                self.spec_virtual_sol(curve) as int,
                self.spec_virtual_token(curve) as int,
                token_amount as int,
            ),
    {
        if token_amount == 0 {
            return None;
        }
        let vsol: u128 = self.virtual_sol(curve) as u128;
        let vtok: u128 = self.virtual_token(curve) as u128;
        proof {
            lemma_mul_upper_bound(vtok as int, u64::MAX as int, 1_000_000_000, 1_000_000_000);
            lemma_mul_upper_bound(
                token_amount as int,
                u64::MAX as int,
                1_000_000_000,
                1_000_000_000,
            );
        }
        let vt9: u128 = vtok * 1_000_000_000 / 1_000_000;
        let tin9: u128 = (token_amount as u128) * 1_000_000_000 / 1_000_000;
        proof {
            lemma_rescaled_exact(vtok as int);
            lemma_rescaled_exact(token_amount as int);
        }
        if vsol > 0 && vt9 > u128::MAX / vsol {
            proof {
                lemma_mul_le_iff_quot(vsol as int, vt9 as int, u128::MAX as int);
            }
            return None;
        }
        proof {
            if vsol > 0 {
                lemma_mul_le_iff_quot(vsol as int, vt9 as int, u128::MAX as int);
            } else {
                assert((vsol as int) * (vt9 as int) == 0) by (nonlinear_arith)
                    requires
                        vsol as int == 0,
                ;
            }
        }
        let num: u128 = vsol * vt9;
        let new_tokens: u128 = vt9 + tin9;
        let new_sol: u128 = num / new_tokens;
        proof {
            lemma_mul_is_commutative(vsol as int, vt9 as int);
            lemma_mul_div_shrinks(vt9 as int, vsol as int, new_tokens as int);
        }
        let sol_out: u128 = vsol - new_sol;
        Some(sol_out as u64)
    }
}

/// `a - b`, saturating at zero.
pub open spec fn spec_sat_sub(a: int, b: int) -> int {
    if a >= b {
        a - b
    } else {
        0
    }
}

/// The smaller of `a` and `b`.
pub open spec fn spec_min(a: int, b: int) -> int {
    if a <= b {
        a
    } else {
        b
    }
}

/// Whether the real-reserve reconciliation formula is defined: the initial
/// virtual token seeding must be nonzero and the implied base portion of the
/// virtual SOL must not exceed the virtual SOL itself.
pub open spec fn spec_expected_real_sol_defined(vsol: int, vtok: int, init_vtok: int) -> bool {
    init_vtok != 0 && (vsol * vtok) / init_vtok <= vsol
}

/// The portion of `vsol` not attributable to the initial virtual-token
/// seeding: `vsol - floor(vsol * vtok / init_vtok)`.  This is the floor that
/// real SOL reserves are reconciled up to.
pub open spec fn spec_expected_real_sol(vsol: int, vtok: int, init_vtok: int) -> int {
    vsol - (vsol * vtok) / init_vtok
}

/// Conditions under which a buy of `sol_amount` lamports on `curve` can be
/// applied: the quote must be defined, the quoted tokens must stay strictly
/// below the curve's real token reserves, and neither SOL counter may
/// overflow 64 bits.
pub open spec fn spec_apply_buy_ok(m: Market, sol_amount: int, curve: Curve) -> bool {
    let vsol = m.spec_virtual_sol(curve) as int;
    let vtok = m.spec_virtual_token(curve) as int;
    let rsol = m.spec_real_sol(curve) as int;
    let rtok = m.spec_real_token(curve) as int;
    &&& spec_buy_quote_defined(vsol, vtok, sol_amount)
    &&& spec_buy_quote(vsol, vtok, sol_amount) < rtok
    &&& vsol + sol_amount <= u64::MAX
    &&& rsol + sol_amount <= u64::MAX
}

/// Conditions under which a sell of `token_amount` tokens on `curve` can be
/// applied: the quote must be defined, neither token counter may overflow
/// 64 bits, and the quoted lamports must be covered by the real SOL
/// reserves.
pub open spec fn spec_apply_sell_ok(m: Market, token_amount: int, curve: Curve) -> bool {
    let vsol = m.spec_virtual_sol(curve) as int;
    let vtok = m.spec_virtual_token(curve) as int;
    let rsol = m.spec_real_sol(curve) as int;
    let rtok = m.spec_real_token(curve) as int;
    &&& spec_sell_quote_defined(vsol, vtok, token_amount)
    &&& vtok + token_amount <= u64::MAX
    &&& rtok + token_amount <= u64::MAX
    &&& spec_sell_quote(vsol, vtok, token_amount) <= rsol
}

/// Virtual SOL removed from a curve holding `vsol` when the host requests a
/// shift of `shift_sol`: the request, clamped so the curve never drops
/// below the `min_liq` floor (and never below zero).
pub open spec fn spec_virtual_shift_amount(vsol: int, shift_sol: int, min_liq: int) -> int {
    spec_min(shift_sol, spec_sat_sub(vsol, min_liq))
}

impl Market {
    /// Reconciliation formula on raw values; shared by the per-curve entry
    /// points and the shift rule.
    fn expected_real_sol_from(vsol: u64, vtok: u64, init_vtok: u64) -> (r: Option<u64>)
        ensures
            r is Some <==> spec_expected_real_sol_defined(
                vsol as int,
                vtok as int,
                init_vtok as int,
            ),
            r matches Some(e) ==> e as int == spec_expected_real_sol(
                vsol as int,
                vtok as int,
                init_vtok as int,
            ),
    {
        if init_vtok == 0 {
            return None;
        }
        proof {
            lemma_mul_upper_bound(vsol as int, u64::MAX as int, vtok as int, u64::MAX as int);
            lemma_mul_nonnegative(vsol as int, vtok as int);
            lemma_div_pos_is_pos(vsol as int * vtok as int, init_vtok as int);
        }
        let basic: u128 = (vsol as u128) * (vtok as u128) / (init_vtok as u128);
        if basic > vsol as u128 {
            return None;
        }
        Some((vsol as u128 - basic) as u64)
    }

    /// Computes `curve`'s expected real SOL reserves from its virtual
    /// reserves and the configured initial virtual-token seeding, without
    /// touching any state.  `None` when the formula is undefined (zero
    /// seeding, or a curve whose virtual tokens exceed the seeding).
    pub fn calc_expected_real_sol_reserves(&self, curve: Curve, global_config: &Config) -> (r:
        Option<u64>)
        ensures
            r is Some <==> spec_expected_real_sol_defined(
                self.spec_virtual_sol(curve) as int,
                self.spec_virtual_token(curve) as int,
                global_config.spec_initial_virtual_token(curve) as int,
            ),
            r matches Some(e) ==> e as int == spec_expected_real_sol(
                self.spec_virtual_sol(curve) as int,
                self.spec_virtual_token(curve) as int,
                global_config.spec_initial_virtual_token(curve) as int,
            ),
    {
        Self::expected_real_sol_from(
            self.virtual_sol(curve),
            self.virtual_token(curve),
            global_config.initial_virtual_token(curve),
        )
    }

    /// Reconciles `curve`'s real SOL reserves before a swap: when the
    /// virtual curve implies a higher real-reserve floor than is recorded,
    /// the recorded value is pulled up to it (never down).  Returns the
    /// expected value either way; `None`, with nothing changed, when the
    /// formula is undefined.
    pub fn check_update_real_sol_reserves(&mut self, curve: Curve, global_config: &Config) -> (r:
        Option<u64>)
        ensures
            ({
                let vsol = old(self).spec_virtual_sol(curve);
                let vtok = old(self).spec_virtual_token(curve);
                let rsol = old(self).spec_real_sol(curve);
                let rtok = old(self).spec_real_token(curve);
                let init = global_config.spec_initial_virtual_token(curve);
                let def = spec_expected_real_sol_defined(vsol as int, vtok as int, init as int);
                let e = spec_expected_real_sol(vsol as int, vtok as int, init as int);
                &&& def ==> (r matches Some(x) && x as int == e && *final(self) == old(
                    self,
                ).spec_with_curve(
                    curve,
                    vsol,
                    vtok,
                    (if e > rsol as int {
                        e
                    } else {
                        rsol as int
                    }) as u64,
                    rtok,
                ))
                &&& !def ==> r is None && *final(self) == *old(self)
            }),
    {
        let vsol = self.virtual_sol(curve);
        let vtok = self.virtual_token(curve);
        let init = global_config.initial_virtual_token(curve);
        let e = match Self::expected_real_sol_from(vsol, vtok, init) {
            None => {
                return None;
            },
            Some(e) => e,
        };
        let rsol = self.real_sol(curve);
        if e > rsol {
            let rtok = self.real_token(curve);
            self.set_curve_reserves(curve, vsol, vtok, e, rtok);
        }
        Some(e)
    }

    /// Applies a buy of `sol_amount` lamports to `curve`: quotes the token
    /// amount, rejects a buy that would drain the real token reserves, and
    /// updates all four counters atomically — on failure nothing changes.
    pub fn apply_buy(&mut self, sol_amount: u64, curve: Curve) -> (r: Option<BuyResult>)
        ensures
            ({
                let vsol = old(self).spec_virtual_sol(curve);
                let vtok = old(self).spec_virtual_token(curve);
                let rsol = old(self).spec_real_sol(curve);
                let rtok = old(self).spec_real_token(curve);
                let tq = spec_buy_quote(vsol as int, vtok as int, sol_amount as int);
                let ok = spec_apply_buy_ok(*old(self), sol_amount as int, curve);
                &&& ok ==> (r matches Some(b) && b.token_amount as int == tq && b.sol_amount
                    == sol_amount && *final(self) == old(self).spec_with_curve(
                    curve,
                    (vsol + sol_amount) as u64,
                    (vtok - tq) as u64,
                    (rsol + sol_amount) as u64,
                    (rtok - tq) as u64,
                ))
                &&& !ok ==> r is None && *final(self) == *old(self)
            }),
    {
        let token_amount = match self.get_tokens_for_buy_sol(sol_amount, curve) {
            None => {
                return None;
            },
            Some(t) => t,
        };
        let rtok = self.real_token(curve);
        if token_amount >= rtok {
            return None;
        }
        let vsol = self.virtual_sol(curve);
        let vtok = self.virtual_token(curve);
        let rsol = self.real_sol(curve);
        if sol_amount > u64::MAX - vsol {
            return None;
        }
        if sol_amount > u64::MAX - rsol {
            return None;
        }
        proof {
            lemma_buy_quote_bounds(vsol as int, vtok as int, sol_amount as int);
        }
        self.set_curve_reserves(
            curve,
            vsol + sol_amount,
            vtok - token_amount,
            rsol + sol_amount,
            rtok - token_amount,
        );
        Some(BuyResult { token_amount, sol_amount })
    }

    /// Applies a sell of `token_amount` tokens to `curve`: quotes the
    /// lamports out and updates all four counters atomically — on failure
    /// (overflow, or real SOL short of the quote) nothing changes.
    pub fn apply_sell(&mut self, token_amount: u64, curve: Curve) -> (r: Option<SellResult>)
        ensures
            ({
                let vsol = old(self).spec_virtual_sol(curve);
                let vtok = old(self).spec_virtual_token(curve);
                let rsol = old(self).spec_real_sol(curve);
                let rtok = old(self).spec_real_token(curve);
                let sq = spec_sell_quote(vsol as int, vtok as int, token_amount as int);
                let ok = spec_apply_sell_ok(*old(self), token_amount as int, curve);
                &&& ok ==> (r matches Some(s) && s.sol_amount as int == sq && s.token_amount
                    == token_amount && *final(self) == old(self).spec_with_curve(
                    curve,
                    (vsol - sq) as u64,
                    (vtok + token_amount) as u64,
                    (rsol - sq) as u64,
                    (rtok + token_amount) as u64,
                ))
                &&& !ok ==> r is None && *final(self) == *old(self)
            }),
    {
        let sol_amount = match self.get_sol_for_sell_tokens(token_amount, curve) {
            None => {
                return None;
            },
            Some(s) => s,
        };
        let vsol = self.virtual_sol(curve);
        let vtok = self.virtual_token(curve);
        let rsol = self.real_sol(curve);
        let rtok = self.real_token(curve);
        if token_amount > u64::MAX - vtok {
            return None;
        }
        if token_amount > u64::MAX - rtok {
            return None;
        }
        if sol_amount > rsol {
            return None;
        }
        proof {
            lemma_sell_quote_bounds(vsol as int, vtok as int, token_amount as int);
        }
        self.set_curve_reserves(
            curve,
            vsol - sol_amount,
            vtok + token_amount,
            rsol - sol_amount,
            rtok + token_amount,
        );
        Some(SellResult { token_amount, sol_amount })
    }

    /// Applies the cross-curve shift to `curve` (the curve *not* traded):
    /// first the virtual shift, clamped to the minimum-liquidity floor, then
    /// the real shift down to the reconciliation target, clamped the same
    /// way.  Returns `(virtual_shift, real_shift)`.  `None`, with nothing
    /// changed, when the reconciliation formula is undefined on the shifted
    /// curve.
    ///
    /// After a successful shift, a curve that started at or above the
    /// configured floor still stands at or above it — in both its virtual
    /// and its real SOL reserves.
    pub fn apply_cross_curve_shift(&mut self, curve: Curve, shift_sol: u64, global_config: &Config)
        -> (r: Option<(u64, u64)>)
        ensures
            ({
                let vsol = old(self).spec_virtual_sol(curve);
                let vtok = old(self).spec_virtual_token(curve);
                let rsol = old(self).spec_real_sol(curve);
                let rtok = old(self).spec_real_token(curve);
                let minl = global_config.min_sol_liquidity;
                let init = global_config.spec_initial_virtual_token(curve);
                let asv = spec_virtual_shift_amount(vsol as int, shift_sol as int, minl as int);
                let vsol1 = vsol as int - asv;
                let def = spec_expected_real_sol_defined(vsol1, vtok as int, init as int);
                let oexp = spec_expected_real_sol(vsol1, vtok as int, init as int);
                let asr = spec_min(
                    spec_sat_sub(rsol as int, oexp),
                    spec_sat_sub(rsol as int, minl as int),
                );
                &&& def ==> (r matches Some(s) && s.0 as int == asv && s.1 as int == asr
                    && *final(self) == old(self).spec_with_curve(
                    curve,
                    vsol1 as u64,
                    vtok,
                    (rsol as int - asr) as u64,
                    rtok,
                ))
                &&& !def ==> r is None && *final(self) == *old(self)
                &&& def && vsol >= minl ==> final(self).spec_virtual_sol(curve) >= minl
                &&& def && rsol >= minl ==> final(self).spec_real_sol(curve) >= minl
            }),
    {
        let vsol = self.virtual_sol(curve);
        let vtok = self.virtual_token(curve);
        let rsol = self.real_sol(curve);
        let rtok = self.real_token(curve);
        let min_liq = global_config.min_sol_liquidity;
        let max_can_remove_virtual = if vsol >= min_liq {
            vsol - min_liq
        } else {
            0
        };
        let actual_shift_virtual = if shift_sol <= max_can_remove_virtual {
            shift_sol
        } else {
            max_can_remove_virtual
        };
        let vsol1 = vsol - actual_shift_virtual;
        let init = global_config.initial_virtual_token(curve);
        let expected = match Self::expected_real_sol_from(vsol1, vtok, init) {
            None => {
                return None;
            },
            Some(e) => e,
        };
        let expected_shift_real = if rsol >= expected {
            rsol - expected
        } else {
            0
        };
        let max_can_remove_real = if rsol >= min_liq {
            rsol - min_liq
        } else {
            0
        };
        let actual_shift_real = if expected_shift_real <= max_can_remove_real {
            expected_shift_real
        } else {
            max_can_remove_real
        };
        self.set_curve_reserves(curve, vsol1, vtok, rsol - actual_shift_real, rtok);
        Some((actual_shift_virtual, actual_shift_real))
    }

    /// Orchestrates one swap on `curve`, the whole pricing path of a trade:
    /// reconcile the traded curve's real SOL floor, charge platform and
    /// creator fees at the tier the caller resolved, quote against the
    /// virtual reserves, enforce the caller's slippage bound, and — on a buy
    /// — apply the cross-curve shift to the other curve.  Returns the trade
    /// record on success.
    ///
    /// All-or-nothing: on any error the market is exactly as it was.
    ///
    /// `shift_sol` is the lamport amount the host asks the shift rule to
    /// migrate on a buy: the host multiplies the net buy amount by its
    /// configured cross-curve factor in its own floating-point step and
    /// hands the truncated result in.  It is ignored on a sell.
    pub fn swap(
        &mut self,
        global_config: &Config,
        user: Identity,
        market_id: Identity,
        amount: u64,
        direction: Direction,
        curve: Curve,
        minimum_receive_amount: u64,
        is_small_fee: bool,
        shift_sol: u64,
        timestamp: i64,
    ) -> (r: Result<TradeEvent, TakesFunError>)
        ensures
            r is Err ==> *final(self) == *old(self),
            amount == 0 <==> r == Err::<TradeEvent, TakesFunError>(TakesFunError::InvalidAmount),
            ({
                let vsol = old(self).spec_virtual_sol(curve) as int;
                let vtok = old(self).spec_virtual_token(curve) as int;
                let rsol = old(self).spec_real_sol(curve) as int;
                let rtok = old(self).spec_real_token(curve) as int;
                let init_t = global_config.spec_initial_virtual_token(curve) as int;
                let rec_def = spec_expected_real_sol_defined(vsol, vtok, init_t);
                let exp = spec_expected_real_sol(vsol, vtok, init_t);
                let rsol1 = if exp > rsol {
                    exp
                } else {
                    rsol
                };
                &&& (amount > 0 && !rec_def <==> r == Err::<TradeEvent, TakesFunError>(
                    TakesFunError::InsufficientRealSolReserves,
                ))
                &&& direction == Direction::Sell ==> ({
                    let sq = spec_sell_quote(vsol, vtok, amount as int);
                    let sell_ok = spec_sell_quote_defined(vsol, vtok, amount as int) && vtok
                        + amount <= u64::MAX && rtok + amount <= u64::MAX && sq <= rsol1;
                    let pf = spec_basis_points_fee(
                        global_config.spec_platform_sell_rate(is_small_fee) as int,
                        sq,
                        10_000,
                    );
                    let cf = spec_basis_points_fee(
                        global_config.creator_sell_fee as int,
                        sq,
                        10_000,
                    );
                    let fees_ok = pf <= u64::MAX && cf <= u64::MAX && pf + cf <= sq;
                    let net_out = sq - pf - cf;
                    let slip_ok = net_out >= minimum_receive_amount;
                    &&& amount > 0 && rec_def && !sell_ok ==> r == Err::<
                        TradeEvent,
                        TakesFunError,
                    >(TakesFunError::SellFailed)
                    &&& amount > 0 && rec_def && sell_ok && !fees_ok ==> r == Err::<
                        TradeEvent,
                        TakesFunError,
                    >(TakesFunError::OverflowOrUnderflowOccurred)
                    &&& amount > 0 && rec_def && sell_ok && fees_ok && !slip_ok ==> r == Err::<
                        TradeEvent,
                        TakesFunError,
                    >(TakesFunError::SlippageExceeded)
                    &&& amount > 0 && rec_def && sell_ok && fees_ok && slip_ok ==> (r matches Ok(e)
                        && *final(self) == old(self).spec_with_curve(
                        curve,
                        (vsol - sq) as u64,
                        (vtok + amount) as u64,
                        (rsol1 - sq) as u64,
                        (rtok + amount) as u64,
                    ) && e.sol_amount as int == sq && e.token_amount == amount
                        && e.platform_fee_lamports as int == pf && e.creator_fee_lamports as int
                        == cf && e.shift_lamports_virtual == 0 && e.shift_lamports_real == 0)
                })
                &&& direction == Direction::Buy ==> ({
                    let pf = spec_basis_points_fee(
                        global_config.spec_platform_buy_rate(is_small_fee) as int,
                        amount as int,
                        10_000,
                    );
                    let cf = spec_basis_points_fee(
                        global_config.creator_buy_fee as int,
                        amount as int,
                        10_000,
                    );
                    let fees_ok = pf <= u64::MAX && cf <= u64::MAX && pf + cf <= amount;
                    let net = amount - pf - cf;
                    let tq = spec_buy_quote(vsol, vtok, net);
                    let buy_ok = spec_buy_quote_defined(vsol, vtok, net) && tq < rtok && vsol + net
                        <= u64::MAX && rsol1 + net <= u64::MAX;
                    let slip_ok = tq >= minimum_receive_amount;
                    let o = curve.spec_other();
                    let ovsol = old(self).spec_virtual_sol(o) as int;
                    let ovtok = old(self).spec_virtual_token(o) as int;
                    let orsol = old(self).spec_real_sol(o) as int;
                    let ortok = old(self).spec_real_token(o) as int;
                    let minl = global_config.min_sol_liquidity as int;
                    let init_o = global_config.spec_initial_virtual_token(o) as int;
                    let asv = spec_virtual_shift_amount(ovsol, shift_sol as int, minl);
                    let ovsol1 = ovsol - asv;
                    let shift_def = spec_expected_real_sol_defined(ovsol1, ovtok as int, init_o);
                    let oexp = spec_expected_real_sol(ovsol1, ovtok as int, init_o);
                    let asr = spec_min(spec_sat_sub(orsol, oexp), spec_sat_sub(orsol, minl));
                    &&& amount > 0 && rec_def && !fees_ok ==> r == Err::<
                        TradeEvent,
                        TakesFunError,
                    >(TakesFunError::OverflowOrUnderflowOccurred)
                    &&& amount > 0 && rec_def && fees_ok && !buy_ok ==> r == Err::<
                        TradeEvent,
                        TakesFunError,
                    >(TakesFunError::BuyFailed)
                    &&& amount > 0 && rec_def && fees_ok && buy_ok && !slip_ok ==> r == Err::<
                        TradeEvent,
                        TakesFunError,
                    >(TakesFunError::SlippageExceeded)
                    &&& amount > 0 && rec_def && fees_ok && buy_ok && slip_ok && !shift_def ==> r
                        == Err::<TradeEvent, TakesFunError>(
                        TakesFunError::InvalidExpectedRealSolReserves,
                    )
                    &&& amount > 0 && rec_def && fees_ok && buy_ok && slip_ok && shift_def ==> (
                    r matches Ok(e) && *final(self) == old(self).spec_with_curve(
                        o,
                        ovsol1 as u64,
                        ovtok as u64,
                        (orsol - asr) as u64,
                        ortok as u64,
                    ).spec_with_curve(
                        curve,
                        (vsol + net) as u64,
                        (vtok - tq) as u64,
                        (rsol1 + net) as u64,
                        (rtok - tq) as u64,
                    ) && e.sol_amount as int == net && e.token_amount as int == tq
                        && e.platform_fee_lamports as int == pf && e.creator_fee_lamports as int
                        == cf && e.shift_lamports_virtual as int == asv
                        && e.shift_lamports_real as int == asr)
                })
            }),
            r matches Ok(e) ==> e.user == user && e.market == market_id && e.yes_token == old(
                self,
            ).yes_token_mint && e.no_token == old(self).no_token_mint && e.direction == direction
                && e.token_type == curve && e.timestamp == timestamp
                && e.yes_virtual_reserve_lamport == final(self).virtual_yes_sol_reserves
                && e.yes_virtual_reserve_token == final(self).virtual_yes_token_reserves
                && e.yes_real_reserve_lamport == final(self).real_yes_sol_reserves
                && e.yes_real_reserve_token == final(self).real_yes_token_reserves
                && e.no_virtual_reserve_lamport == final(self).virtual_no_sol_reserves
                && e.no_virtual_reserve_token == final(self).virtual_no_token_reserves
                && e.no_real_reserve_lamport == final(self).real_no_sol_reserves
                && e.no_real_reserve_token == final(self).real_no_token_reserves,
    {
        if amount == 0 {
            return Err(TakesFunError::InvalidAmount);
        }
        let vsol = self.virtual_sol(curve);
        let vtok = self.virtual_token(curve);
        let rsol = self.real_sol(curve);
        let rtok = self.real_token(curve);
        let init_t = global_config.initial_virtual_token(curve);
        let expected = match Self::expected_real_sol_from(vsol, vtok, init_t) {
            None => {
                return Err(TakesFunError::InsufficientRealSolReserves);
            },
            Some(e) => e,
        };
        let rsol1 = if expected > rsol {
            expected
        } else {
            rsol
        };
        match direction {
            Direction::Sell => {
                let sq = match self.get_sol_for_sell_tokens(amount, curve) {
                    None => {
                        return Err(TakesFunError::SellFailed);
                    },
                    Some(s) => s,
                };
                if amount > u64::MAX - vtok {
                    return Err(TakesFunError::SellFailed);
                }
                if amount > u64::MAX - rtok {
                    return Err(TakesFunError::SellFailed);
                }
                if sq > rsol1 {
                    return Err(TakesFunError::SellFailed);
                }
                let p_rate = if is_small_fee {
                    global_config.platform_sell_small_fee
                } else {
                    global_config.platform_sell_fee
                };
                let pf = match basis_points_fee(p_rate, sq, FEE_DENOM) {
                    None => {
                        return Err(TakesFunError::OverflowOrUnderflowOccurred);
                    },
                    Some(f) => f,
                };
                let cf = match basis_points_fee(global_config.creator_sell_fee, sq, FEE_DENOM) {
                    None => {
                        return Err(TakesFunError::OverflowOrUnderflowOccurred);
                    },
                    Some(f) => f,
                };
                if pf > sq || cf > sq - pf {
                    return Err(TakesFunError::OverflowOrUnderflowOccurred);
                }
                let net_out = sq - pf - cf;
                if net_out < minimum_receive_amount {
                    return Err(TakesFunError::SlippageExceeded);
                }
                proof {
                    lemma_sell_quote_bounds(vsol as int, vtok as int, amount as int);
                }
                self.set_curve_reserves(curve, vsol - sq, vtok + amount, rsol1 - sq, rtok + amount);
                Ok(
                    TradeEvent {
                        user,
                        yes_token: self.yes_token_mint,
                        no_token: self.no_token_mint,
                        market: market_id,
                        sol_amount: sq,
                        token_amount: amount,
                        platform_fee_lamports: pf,
                        creator_fee_lamports: cf,
                        shift_lamports_real: 0,
                        shift_lamports_virtual: 0,
                        direction,
                        token_type: curve,
                        timestamp,
                        yes_real_reserve_lamport: self.real_yes_sol_reserves,
                        yes_real_reserve_token: self.real_yes_token_reserves,
                        yes_virtual_reserve_lamport: self.virtual_yes_sol_reserves,
                        yes_virtual_reserve_token: self.virtual_yes_token_reserves,
                        no_real_reserve_lamport: self.real_no_sol_reserves,
                        no_real_reserve_token: self.real_no_token_reserves,
                        no_virtual_reserve_lamport: self.virtual_no_sol_reserves,
                        no_virtual_reserve_token: self.virtual_no_token_reserves,
                    },
                )
            },
            Direction::Buy => {
                let p_rate = if is_small_fee {
                    global_config.platform_buy_small_fee
                } else {
                    global_config.platform_buy_fee
                };
                let pf = match basis_points_fee(p_rate, amount, FEE_DENOM) {
                    None => {
                        return Err(TakesFunError::OverflowOrUnderflowOccurred);
                    },
                    Some(f) => f,
                };
                let cf = match basis_points_fee(global_config.creator_buy_fee, amount, FEE_DENOM) {
                    None => {
                        return Err(TakesFunError::OverflowOrUnderflowOccurred);
                    },
                    Some(f) => f,
                };
                if pf > amount || cf > amount - pf {
                    return Err(TakesFunError::OverflowOrUnderflowOccurred);
                }
                let net = amount - pf - cf;
                let tq = match self.get_tokens_for_buy_sol(net, curve) {
                    None => {
                        return Err(TakesFunError::BuyFailed);
                    },
                    Some(t) => t,
                };
                if tq >= rtok {
                    return Err(TakesFunError::BuyFailed);
                }
                if net > u64::MAX - vsol {
                    return Err(TakesFunError::BuyFailed);
                }
                if net > u64::MAX - rsol1 {
                    return Err(TakesFunError::BuyFailed);
                }
                if tq < minimum_receive_amount {
                    return Err(TakesFunError::SlippageExceeded);
                }
                let o = curve.other();
                let (asv, asr) = match self.apply_cross_curve_shift(o, shift_sol, global_config) {
                    None => {
                        return Err(TakesFunError::InvalidExpectedRealSolReserves);
                    },
                    Some(s) => s,
                };
                proof {
                    lemma_buy_quote_bounds(vsol as int, vtok as int, net as int);
                }
                self.set_curve_reserves(curve, vsol + net, vtok - tq, rsol1 + net, rtok - tq);
                Ok(
                    TradeEvent {
                        user,
                        yes_token: self.yes_token_mint,
                        no_token: self.no_token_mint,
                        market: market_id,
                        sol_amount: net,
                        token_amount: tq,
                        platform_fee_lamports: pf,
                        creator_fee_lamports: cf,
                        shift_lamports_real: asr,
                        shift_lamports_virtual: asv,
                        direction,
                        token_type: curve,
                        timestamp,
                        yes_real_reserve_lamport: self.real_yes_sol_reserves,
                        yes_real_reserve_token: self.real_yes_token_reserves,
                        yes_virtual_reserve_lamport: self.virtual_yes_sol_reserves,
                        yes_virtual_reserve_token: self.virtual_yes_token_reserves,
                        no_real_reserve_lamport: self.real_no_sol_reserves,
                        no_real_reserve_token: self.real_no_token_reserves,
                        no_virtual_reserve_lamport: self.virtual_no_sol_reserves,
                        no_virtual_reserve_token: self.virtual_no_token_reserves,
                    },
                )
            },
        }
    }
}

} // verus!
