//! Magmas with absorbing elements.

use vstd::prelude::*;

verus! {

use crate::ops::{BinOp, BinOpMarker};
use crate::algebra::magma::Magma;

/// A trait for a [`Magma`] with a unique
/// [left-absorbing](https://en.wikipedia.org/wiki/Absorbing_element) element,
/// satisfying `e op x = e` for any `x`.
pub trait LeftAbsorbing<Op: BinOpMarker>: Magma<Op> {
    /// The left-absorbing element.
    spec fn left_absorb_spec() -> Self;

    /// The law: the left-absorbing element combines with every value and
    /// swallows it.
    proof fn left_absorb_law(a: &Self)
        ensures
            <Self as BinOp<Op>>::op_ok(&Self::left_absorb_spec(), a),
            <Self as BinOp<Op>>::op_spec(&Self::left_absorb_spec(), a)
                == Self::left_absorb_spec(),
    ;

    /// Returns the unique left-absorbing element of the magma.
    fn left_absorb() -> (r: Self)
        ensures
            r == Self::left_absorb_spec(),
    ;

    /// Tests whether the left zero times a given value equals the zero. By
    /// the law, the test always passes.
    fn test_left_absorb(&self) -> (r: bool)
        ensures
            r,
    {
        proof {
            Self::left_absorb_law(self);
        }
        let z = Self::left_absorb();
        let x = <Self as Magma<Op>>::op(&z, self);
        x.eq_val(&z)
    }
}

/// A trait for a [`Magma`] with a unique
/// [right-absorbing](https://en.wikipedia.org/wiki/Absorbing_element) element,
/// satisfying `x op e = e` for any `x`.
pub trait RightAbsorbing<Op: BinOpMarker>: Magma<Op> {
    /// The right-absorbing element.
    spec fn right_absorb_spec() -> Self;

    /// The law: every value combines with the right-absorbing element and is
    /// swallowed by it.
    proof fn right_absorb_law(a: &Self)
        ensures
            <Self as BinOp<Op>>::op_ok(a, &Self::right_absorb_spec()),
            <Self as BinOp<Op>>::op_spec(a, &Self::right_absorb_spec())
                == Self::right_absorb_spec(),
    ;

    /// Returns the unique right-absorbing element of the magma.
    fn right_absorb() -> (r: Self)
        ensures
            r == Self::right_absorb_spec(),
    ;

    /// Tests whether a given value times the right zero equals the zero. By
    /// the law, the test always passes.
    fn test_right_absorb(&self) -> (r: bool)
        ensures
            r,
    {
        proof {
            Self::right_absorb_law(self);
        }
        let z = Self::right_absorb();
        let x = <Self as Magma<Op>>::op(self, &z);
        x.eq_val(&z)
    }
}

/// A trait for a [`Magma`] with a unique
/// [absorbing](https://en.wikipedia.org/wiki/Absorbing_element) element,
/// satisfying `e op x = e` and `x op e = e` for any `x`.
pub trait Absorbing<Op: BinOpMarker>: LeftAbsorbing<Op> + RightAbsorbing<Op> {
    /// The two absorbing elements coincide: a theorem, proved once by the
    /// blanket implementation.
    proof fn absorb_coincide()
        ensures
            Self::left_absorb_spec() == Self::right_absorb_spec(),
    ;

    /// Returns the unique absorbing element of the magma.
    fn absorb() -> (r: Self)
        ensures
            r == Self::left_absorb_spec(),
    {
        Self::left_absorb()
    }
}

impl<Op: BinOpMarker, T: LeftAbsorbing<Op> + RightAbsorbing<Op>> Absorbing<Op> for T {
    proof fn absorb_coincide() {
        // l op r = l by the left law; l op r = r by the right law.
        T::left_absorb_law(&T::right_absorb_spec());
        T::right_absorb_law(&T::left_absorb_spec());
    }
}

} // verus!
