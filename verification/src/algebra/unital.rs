//! Contains the traits for left-unital, right-unital, and unital magmas.

use vstd::prelude::*;

verus! {

use crate::ops::{BinOp, BinOpMarker};
use crate::algebra::magma::Magma;

/// A trait that specifies that a [`Magma`] has a unique
/// [left identity](https://en.wikipedia.org/wiki/Identity_element#Definitions).
pub trait LeftUnital<Op: BinOpMarker>: Magma<Op> {
    /// The left identity.
    spec fn left_id_spec() -> Self;

    /// The law: the left identity combines with every value and leaves it
    /// unchanged.
    proof fn left_id_law(a: &Self)
        ensures
            <Self as BinOp<Op>>::op_ok(&Self::left_id_spec(), a),
            <Self as BinOp<Op>>::op_spec(&Self::left_id_spec(), a) == *a,
    ;

    /// Returns the unique left identity.
    fn left_id() -> (r: Self)
        ensures
            r == Self::left_id_spec(),
    ;

    /// Tests whether the left identity times a given value equals the value.
    /// By the left identity law, the test always passes.
    fn test_left_id(&self) -> (r: bool)
        ensures
            r,
    {
        proof {
            Self::left_id_law(self);
        }
        let e = Self::left_id();
        let x = <Self as Magma<Op>>::op(&e, self);
        x.eq_val(self)
    }
}

/// A trait that specifies that a [`Magma`] has a unique
/// [right identity](https://en.wikipedia.org/wiki/Identity_element#Definitions).
pub trait RightUnital<Op: BinOpMarker>: Magma<Op> {
    /// The right identity.
    spec fn right_id_spec() -> Self;

    /// The law: every value combines with the right identity and stays
    /// unchanged.
    proof fn right_id_law(a: &Self)
        ensures
            <Self as BinOp<Op>>::op_ok(a, &Self::right_id_spec()),
            <Self as BinOp<Op>>::op_spec(a, &Self::right_id_spec()) == *a,
    ;

    /// Returns the unique right identity.
    fn right_id() -> (r: Self)
        ensures
            r == Self::right_id_spec(),
    ;

    /// Tests whether a given value times the right identity equals the value.
    /// By the right identity law, the test always passes.
    fn test_right_id(&self) -> (r: bool)
        ensures
            r,
    {
        proof {
            Self::right_id_law(self);
        }
        let e = Self::right_id();
        let x = <Self as Magma<Op>>::op(self, &e);
        x.eq_val(self)
    }
}

/// A [`Magma`] is unital whenever it has a (unique) two-sided identity
/// element.
pub trait Unital<Op: BinOpMarker>: LeftUnital<Op> + RightUnital<Op> {
    /// The left and right identities coincide: this is a theorem of unital
    /// magmas, not an extra assumption, so the blanket implementation proves
    /// it once for every type.
    proof fn id_coincide()
        ensures
            Self::left_id_spec() == Self::right_id_spec(),
    ;

    /// Returns the unique identity.
    fn id() -> (r: Self)
        ensures
            r == Self::left_id_spec(),
    {
        Self::left_id()
    }

    /// Checks whether the left and right identities are equal. They always
    /// are.
    fn test_id() -> (r: bool)
        ensures
            r,
    {
        proof {
            Self::id_coincide();
        }
        let l = Self::left_id();
        let r = Self::right_id();
        l.eq_val(&r)
    }
}

impl<Op: BinOpMarker, T: LeftUnital<Op> + RightUnital<Op>> Unital<Op> for T {
    proof fn id_coincide() {
        // l = l op r by the right law; l op r = r by the left law.
        T::left_id_law(&T::right_id_spec());
        T::right_id_law(&T::left_id_spec());
    }
}

} // verus!
