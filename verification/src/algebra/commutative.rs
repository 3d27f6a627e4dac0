//! Commutative magmas.

use vstd::prelude::*;

verus! {

use crate::ops::{BinOp, BinOpMarker};
use crate::algebra::magma::Magma;

/// A [`Magma`] is [commutative](https://en.wikipedia.org/wiki/Commutative_property)
/// whenever `a op b = b op a` for all `a, b`.
///
/// The implementor ratifies that commutativity holds by discharging
/// [`Commutative::comm_law`].
pub trait Commutative<Op: BinOpMarker>: Magma<Op> {
    /// The law: the operation, and its domain, are symmetric in their
    /// operands.
    proof fn comm_law(a: &Self, b: &Self)
        ensures
            <Self as BinOp<Op>>::op_spec(a, b) == <Self as BinOp<Op>>::op_spec(b, a),
            <Self as BinOp<Op>>::op_ok(a, b) == <Self as BinOp<Op>>::op_ok(b, a),
    ;

    /// Applies the binary operation on two values, assigns the result to the
    /// former.
    ///
    /// For clarity, you should prefer this over [`Magma::op_assign_lhs`] and
    /// [`Magma::op_assign_rhs`] for commutative magmas.
    fn op_assign(&mut self, rhs: &Self)
        requires
            <Self as BinOp<Op>>::op_ok(old(self), rhs),
        ensures
            *final(self) == <Self as BinOp<Op>>::op_spec(old(self), rhs),
    {
        <Self as Magma<Op>>::op_assign_lhs(self, rhs)
    }

    /// Tests whether `a op b = b op a` for a given pair of entries. By the
    /// commutativity law, the test always passes.
    fn test_comm(&self, rhs: &Self) -> (r: bool)
        requires
            <Self as BinOp<Op>>::op_ok(self, rhs),
        ensures
            r,
    {
        proof {
            Self::comm_law(self, rhs);
        }
        let x = <Self as Magma<Op>>::op(self, rhs);
        let y = <Self as Magma<Op>>::op(rhs, self);
        x.eq_val(&y)
    }
}

} // verus!
