//! The base of the algebraic hierarchy: a set with a closed binary operation.

use vstd::prelude::*;

verus! {

use vstd::pervasive::unreached;
use crate::ops::{BinOp, BinOpAssign, BinOpMarker, BinOpSet, Bws, EqValue};

/// Mathematically, a [magma](https://en.wikipedia.org/wiki/Magma_(algebra)) is
/// a set together with a closed binary operation. No further restrictions are
/// imposed.
///
/// In contrast to [`crate::ops::BinOp`], the methods here do not surface an
/// error: they require the operands to lie in the operation's domain
/// ([`crate::ops::BinOp::op_ok`]), which is the "normal circumstances" under
/// which a magma never fails.
pub trait Magma<Op: BinOpMarker>: BinOpSet<Op> + EqValue {
    /// Applies the binary operation on two values.
    ///
    /// On non-copy types, this will often create a new buffer.
    fn op(&self, rhs: &Self) -> (r: Self)
        requires
            <Self as BinOp<Op>>::op_ok(self, rhs),
        ensures
            r == <Self as BinOp<Op>>::op_spec(self, rhs),
    {
        match <Self as BinOp<Op>>::bin_op(self, rhs) {
            Ok(v) => v,
            Err(_) => unreached(),
        }
    }

    /// Applies the binary operation on two values, assigns the result to the
    /// former.
    fn op_assign_lhs(&mut self, rhs: &Self)
        requires
            <Self as BinOp<Op>>::op_ok(old(self), rhs),
        ensures
            *final(self) == <Self as BinOp<Op>>::op_spec(old(self), rhs),
    {
        match <Self as BinOpAssign<Op>>::bin_op_assign_lhs(self, rhs) {
            Ok(u) => u,
            Err(_) => unreached(),
        }
    }

    /// Applies the binary operation on two values, assigns the result to the
    /// latter.
    fn op_assign_rhs(&self, rhs: &mut Self)
        requires
            <Self as BinOp<Op>>::op_ok(self, old(rhs)),
        ensures
            *final(rhs) == <Self as BinOp<Op>>::op_spec(self, old(rhs)),
    {
        match <Self as BinOpAssign<Op>>::bin_op_assign_rhs(self, rhs) {
            Ok(u) => u,
            Err(_) => unreached(),
        }
    }
}

impl<Op: BinOpMarker, T: Magma<Op>> Magma<Bws<Op>> for T {
}

} // verus!
