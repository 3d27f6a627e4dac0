//! Loops: unital quasigroups, and the Bol and Moufang refinements.

use vstd::prelude::*;

verus! {

use crate::ops::{BinOp, BinOpMarker};
use crate::algebra::magma::Magma;
use crate::algebra::quasigroup::{LeftQuasigroup, Quasigroup, RightQuasigroup};
use crate::algebra::unital::{LeftUnital, Unital};

/// A [loop](https://en.wikipedia.org/wiki/Quasigroup#Loops) is both
/// [`Unital`] and a [`Quasigroup`]. Dividing the identity by a value gives
/// its one-sided inverses.
pub trait Loop<Op: BinOpMarker>: Unital<Op> + Quasigroup<Op> {
    /// Returns the left inverse of a value: the identity, right-divided by
    /// it.
    fn left_inv(&self) -> (r: Self)
        ensures
            r == <Self as BinOp<Self::RInv>>::op_spec(&Self::left_id_spec(), self),
            <Self as BinOp<Op>>::op_spec(&r, self) == Self::left_id_spec(),
    {
        proof {
            Self::right_div_law(self, &Self::left_id_spec());
        }
        let e = Self::id();
        e.right_div(self)
    }

    /// Evaluates the left inverse of a value and assigns it to `self`.
    fn left_inv_assign(&mut self)
        ensures
            *final(self) == <Self as BinOp<Self::RInv>>::op_spec(
                &Self::left_id_spec(),
                old(self),
            ),
    {
        let e = Self::id();
        e.right_div_assign_rhs(self)
    }

    /// Returns the right inverse of a value: it, left-divided into the
    /// identity.
    fn right_inv(&self) -> (r: Self)
        ensures
            r == <Self as BinOp<Self::LInv>>::op_spec(self, &Self::left_id_spec()),
            <Self as BinOp<Op>>::op_spec(self, &r) == Self::left_id_spec(),
    {
        proof {
            Self::left_div_law(self, &Self::left_id_spec());
        }
        let e = Self::id();
        self.left_div(&e)
    }

    /// Evaluates the right inverse of a value and assigns it to `self`.
    fn right_inv_assign(&mut self)
        ensures
            *final(self) == <Self as BinOp<Self::LInv>>::op_spec(
                old(self),
                &Self::left_id_spec(),
            ),
    {
        let e = Self::id();
        self.left_div_assign_lhs(&e)
    }
}

impl<Op: BinOpMarker, T: Unital<Op> + Quasigroup<Op>> Loop<Op> for T {
}

/// A [left Bol loop](https://en.wikipedia.org/wiki/Bol_loop) is a [`Loop`]
/// such that `a op (b op (a op c)) = (a op (b op a)) op c` for all `a, b, c`.
pub trait LeftBolLoop<Op: BinOpMarker>: Loop<Op> {
    /// The left Bol law.
    proof fn left_bol_law(a: &Self, b: &Self, c: &Self)
        ensures
            <Self as BinOp<Op>>::op_spec(
                a,
                &<Self as BinOp<Op>>::op_spec(b, &<Self as BinOp<Op>>::op_spec(a, c)),
            ) == <Self as BinOp<Op>>::op_spec(
                &<Self as BinOp<Op>>::op_spec(a, &<Self as BinOp<Op>>::op_spec(b, a)),
                c,
            ),
    ;

    /// Tests whether three values satisfy the condition for a left Bol loop.
    /// By the law, the test always passes.
    fn test_left_bol_loop(a: &Self, b: &Self, c: &Self) -> (r: bool)
        requires
            <Self as BinOp<Op>>::op_ok(a, c),
            <Self as BinOp<Op>>::op_ok(b, &<Self as BinOp<Op>>::op_spec(a, c)),
            <Self as BinOp<Op>>::op_ok(
                a,
                &<Self as BinOp<Op>>::op_spec(b, &<Self as BinOp<Op>>::op_spec(a, c)),
            ),
            <Self as BinOp<Op>>::op_ok(b, a),
            <Self as BinOp<Op>>::op_ok(a, &<Self as BinOp<Op>>::op_spec(b, a)),
            <Self as BinOp<Op>>::op_ok(
                &<Self as BinOp<Op>>::op_spec(a, &<Self as BinOp<Op>>::op_spec(b, a)),
                c,
            ),
        ensures
            r,
    {
        proof {
            Self::left_bol_law(a, b, c);
        }
        let ac = <Self as Magma<Op>>::op(a, c);
        let bac = <Self as Magma<Op>>::op(b, &ac);
        let lhs = <Self as Magma<Op>>::op(a, &bac);
        let ba = <Self as Magma<Op>>::op(b, a);
        let aba = <Self as Magma<Op>>::op(a, &ba);
        let rhs = <Self as Magma<Op>>::op(&aba, c);
        lhs.eq_val(&rhs)
    }
}

/// A [right Bol loop](https://en.wikipedia.org/wiki/Bol_loop) is a [`Loop`]
/// such that `((c op a) op b) op a = c op ((a op b) op a)` for all `a, b, c`.
pub trait RightBolLoop<Op: BinOpMarker>: Loop<Op> {
    /// The right Bol law.
    proof fn right_bol_law(a: &Self, b: &Self, c: &Self)
        ensures
            <Self as BinOp<Op>>::op_spec(
                &<Self as BinOp<Op>>::op_spec(&<Self as BinOp<Op>>::op_spec(c, a), b),
                a,
            ) == <Self as BinOp<Op>>::op_spec(
                c,
                &<Self as BinOp<Op>>::op_spec(&<Self as BinOp<Op>>::op_spec(a, b), a),
            ),
    ;

    /// Tests whether three values satisfy the condition for a right Bol loop.
    /// By the law, the test always passes.
    fn test_right_bol_loop(a: &Self, b: &Self, c: &Self) -> (r: bool)
        requires
            <Self as BinOp<Op>>::op_ok(c, a),
            <Self as BinOp<Op>>::op_ok(&<Self as BinOp<Op>>::op_spec(c, a), b),
            <Self as BinOp<Op>>::op_ok(
                &<Self as BinOp<Op>>::op_spec(&<Self as BinOp<Op>>::op_spec(c, a), b),
                a,
            ),
            <Self as BinOp<Op>>::op_ok(a, b),
            <Self as BinOp<Op>>::op_ok(&<Self as BinOp<Op>>::op_spec(a, b), a),
            <Self as BinOp<Op>>::op_ok(
                c,
                &<Self as BinOp<Op>>::op_spec(&<Self as BinOp<Op>>::op_spec(a, b), a),
            ),
        ensures
            r,
    {
        proof {
            Self::right_bol_law(a, b, c);
        }
        let ca = <Self as Magma<Op>>::op(c, a);
        let cab = <Self as Magma<Op>>::op(&ca, b);
        let lhs = <Self as Magma<Op>>::op(&cab, a);
        let ab = <Self as Magma<Op>>::op(a, b);
        let aba = <Self as Magma<Op>>::op(&ab, a);
        let rhs = <Self as Magma<Op>>::op(c, &aba);
        lhs.eq_val(&rhs)
    }
}

/// A [Moufang loop](https://en.wikipedia.org/wiki/Moufang_loop) is both a
/// [`LeftBolLoop`] and a [`RightBolLoop`].
pub trait MoufangLoop<Op: BinOpMarker>: LeftBolLoop<Op> + RightBolLoop<Op> {
}

impl<Op: BinOpMarker, T: LeftBolLoop<Op> + RightBolLoop<Op>> MoufangLoop<Op> for T {
}

} // verus!
