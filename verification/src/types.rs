use vstd::prelude::*;

verus! {

/// Opaque handle for an account identity (a wallet, a mint, a vault).
/// The host's custody layer owns the real addressing scheme; the engine only
/// ever compares identities for equality.
#[derive(Clone, Copy, PartialEq, Eq, Structural, Debug)]
pub struct Identity {
    pub id: u64,
}

/// One of the two constant-product curves of a market.
#[derive(Clone, Copy, PartialEq, Eq, Structural, Debug)]
pub enum Curve {
    Yes,
    No,
}

/// Trade direction of a swap.
#[derive(Clone, Copy, PartialEq, Eq, Structural, Debug)]
pub enum Direction {
    Buy,
    Sell,
}

impl Curve {
    /// The curve that is not `self`: the one the cross-curve shift drains
    /// when `self` is the traded curve.
    pub open spec fn spec_other(self) -> Curve {
        match self {
            Curve::Yes => Curve::No,
            Curve::No => Curve::Yes,
        }
    }

    /// Executable counterpart of [`Curve::spec_other`].
    pub fn other(self) -> (r: Curve)
        ensures
            r == self.spec_other(),
    {
        match self {
            Curve::Yes => Curve::No,
            Curve::No => Curve::Yes,
        }
    }
}

} // verus!
