//! Quasigroups: magmas with left and right division.

use vstd::prelude::*;

verus! {

use crate::ops::{BinOp, BinOpMarker};
use crate::algebra::magma::Magma;

/// A [left quasigroup](https://en.wikipedia.org/wiki/Quasigroup) is a
/// [`Magma`] together with a left division operator.
pub trait LeftQuasigroup<Op: BinOpMarker>: Magma<Op> + Magma<Self::LInv> {
    /// The operator corresponding to left division. It must always be true
    /// that `a Op (a LInv b) = b`.
    type LInv: BinOpMarker;

    /// The law of left division: it is total, and `a Op (a LInv b) = b`.
    proof fn left_div_law(a: &Self, b: &Self)
        ensures
            <Self as BinOp<Self::LInv>>::op_ok(a, b),
            <Self as BinOp<Op>>::op_ok(a, &<Self as BinOp<Self::LInv>>::op_spec(a, b)),
            <Self as BinOp<Op>>::op_spec(a, &<Self as BinOp<Self::LInv>>::op_spec(a, b)) == *b,
    ;

    /// An alias for the main operation of a [`LeftQuasigroup`].
    fn left_quasi_op(&self, rhs: &Self) -> (r: Self)
        requires
            <Self as BinOp<Op>>::op_ok(self, rhs),
        ensures
            r == <Self as BinOp<Op>>::op_spec(self, rhs),
    {
        <Self as Magma<Op>>::op(self, rhs)
    }

    /// An alias for the main left operation-assign of a [`LeftQuasigroup`].
    fn left_quasi_op_assign_lhs(&mut self, rhs: &Self)
        requires
            <Self as BinOp<Op>>::op_ok(old(self), rhs),
        ensures
            *final(self) == <Self as BinOp<Op>>::op_spec(old(self), rhs),
    {
        <Self as Magma<Op>>::op_assign_lhs(self, rhs)
    }

    /// An alias for the main right operation-assign of a [`LeftQuasigroup`].
    fn left_quasi_op_assign_rhs(&self, rhs: &mut Self)
        requires
            <Self as BinOp<Op>>::op_ok(self, old(rhs)),
        ensures
            *final(rhs) == <Self as BinOp<Op>>::op_spec(self, old(rhs)),
    {
        <Self as Magma<Op>>::op_assign_rhs(self, rhs)
    }

    /// Returns the left division of both values.
    fn left_div(&self, rhs: &Self) -> (r: Self)
        ensures
            r == <Self as BinOp<Self::LInv>>::op_spec(self, rhs),
    {
        proof {
            Self::left_div_law(self, rhs);
        }
        <Self as Magma<Self::LInv>>::op(self, rhs)
    }

    /// Evaluates the left division of `self` and `rhs` and assigns it to
    /// `self`.
    fn left_div_assign_lhs(&mut self, rhs: &Self)
        ensures
            *final(self) == <Self as BinOp<Self::LInv>>::op_spec(old(self), rhs),
    {
        proof {
            Self::left_div_law(old(self), rhs);
        }
        <Self as Magma<Self::LInv>>::op_assign_lhs(self, rhs)
    }

    /// Evaluates the left division of `self` and `rhs` and assigns it to
    /// `rhs`.
    fn left_div_assign_rhs(&self, rhs: &mut Self)
        ensures
            *final(rhs) == <Self as BinOp<Self::LInv>>::op_spec(self, old(rhs)),
    {
        proof {
            Self::left_div_law(self, old(rhs));
        }
        <Self as Magma<Self::LInv>>::op_assign_rhs(self, rhs)
    }

    /// Tests whether `a Op (a LInv b) = b` for a given pair of values. By the
    /// left division law, the test always passes.
    fn test_left_div(&self, rhs: &Self) -> (r: bool)
        ensures
            r,
    {
        proof {
            Self::left_div_law(self, rhs);
        }
        let d = self.left_div(rhs);
        let x = <Self as Magma<Op>>::op(self, &d);
        x.eq_val(rhs)
    }
}

/// A [right quasigroup](https://en.wikipedia.org/wiki/Quasigroup) is a
/// [`Magma`] together with a right division operator.
pub trait RightQuasigroup<Op: BinOpMarker>: Magma<Op> + Magma<Self::RInv> {
    /// The operator corresponding to right division. It must always be true
    /// that `(b RInv a) Op a = b`.
    type RInv: BinOpMarker;

    /// The law of right division: it is total, and `(b RInv a) Op a = b`.
    proof fn right_div_law(a: &Self, b: &Self)
        ensures
            <Self as BinOp<Self::RInv>>::op_ok(b, a),
            <Self as BinOp<Op>>::op_ok(&<Self as BinOp<Self::RInv>>::op_spec(b, a), a),
            <Self as BinOp<Op>>::op_spec(&<Self as BinOp<Self::RInv>>::op_spec(b, a), a) == *b,
    ;

    /// An alias for the main operation of a [`RightQuasigroup`].
    fn right_quasi_op(&self, rhs: &Self) -> (r: Self)
        requires
            <Self as BinOp<Op>>::op_ok(self, rhs),
        ensures
            r == <Self as BinOp<Op>>::op_spec(self, rhs),
    {
        <Self as Magma<Op>>::op(self, rhs)
    }

    /// An alias for the main left operation-assign of a [`RightQuasigroup`].
    fn right_quasi_op_assign_lhs(&mut self, rhs: &Self)
        requires
            <Self as BinOp<Op>>::op_ok(old(self), rhs),
        ensures
            *final(self) == <Self as BinOp<Op>>::op_spec(old(self), rhs),
    {
        <Self as Magma<Op>>::op_assign_lhs(self, rhs)
    }

    /// An alias for the main right operation-assign of a [`RightQuasigroup`].
    fn right_quasi_op_assign_rhs(&self, rhs: &mut Self)
        requires
            <Self as BinOp<Op>>::op_ok(self, old(rhs)),
        ensures
            *final(rhs) == <Self as BinOp<Op>>::op_spec(self, old(rhs)),
    {
        <Self as Magma<Op>>::op_assign_rhs(self, rhs)
    }

    /// Returns the right division of both values.
    fn right_div(&self, rhs: &Self) -> (r: Self)
        ensures
            r == <Self as BinOp<Self::RInv>>::op_spec(self, rhs),
    {
        proof {
            Self::right_div_law(rhs, self);
        }
        <Self as Magma<Self::RInv>>::op(self, rhs)
    }

    /// Evaluates the right division of `self` and `rhs` and assigns it to
    /// `self`.
    fn right_div_assign_lhs(&mut self, rhs: &Self)
        ensures
            *final(self) == <Self as BinOp<Self::RInv>>::op_spec(old(self), rhs),
    {
        proof {
            Self::right_div_law(rhs, old(self));
        }
        <Self as Magma<Self::RInv>>::op_assign_lhs(self, rhs)
    }

    /// Evaluates the right division of `self` and `rhs` and assigns it to
    /// `rhs`.
    fn right_div_assign_rhs(&self, rhs: &mut Self)
        ensures
            *final(rhs) == <Self as BinOp<Self::RInv>>::op_spec(self, old(rhs)),
    {
        proof {
            Self::right_div_law(old(rhs), self);
        }
        <Self as Magma<Self::RInv>>::op_assign_rhs(self, rhs)
    }

    /// Tests whether `(b RInv a) Op a = b` for a given pair of values. By the
    /// right division law, the test always passes.
    fn test_right_div(&self, rhs: &Self) -> (r: bool)
        ensures
            r,
    {
        proof {
            Self::right_div_law(self, rhs);
        }
        let d = rhs.right_div(self);
        let x = <Self as Magma<Op>>::op(&d, self);
        x.eq_val(rhs)
    }
}

/// A [quasigroup](https://en.wikipedia.org/wiki/Quasigroup) is a [`Magma`]
/// together with a left division and right division operator.
pub trait Quasigroup<Op: BinOpMarker>: LeftQuasigroup<Op> + RightQuasigroup<Op> {
    /// An alias for the main operation of a [`Quasigroup`].
    fn quasi_op(&self, rhs: &Self) -> (r: Self)
        requires
            <Self as BinOp<Op>>::op_ok(self, rhs),
        ensures
            r == <Self as BinOp<Op>>::op_spec(self, rhs),
    {
        self.left_quasi_op(rhs)
    }

    /// An alias for the main left operation-assign of a [`Quasigroup`].
    fn quasi_op_assign_lhs(&mut self, rhs: &Self)
        requires
            <Self as BinOp<Op>>::op_ok(old(self), rhs),
        ensures
            *final(self) == <Self as BinOp<Op>>::op_spec(old(self), rhs),
    {
        self.left_quasi_op_assign_lhs(rhs)
    }

    /// An alias for the main right operation-assign of a [`Quasigroup`].
    fn quasi_op_assign_rhs(&self, rhs: &mut Self)
        requires
            <Self as BinOp<Op>>::op_ok(self, old(rhs)),
        ensures
            *final(rhs) == <Self as BinOp<Op>>::op_spec(self, old(rhs)),
    {
        self.left_quasi_op_assign_rhs(rhs)
    }
}

impl<Op: BinOpMarker, T: LeftQuasigroup<Op> + RightQuasigroup<Op>> Quasigroup<Op> for T {
}

} // verus!
