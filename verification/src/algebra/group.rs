//! Groups: associative loops.

use vstd::prelude::*;

verus! {

use crate::ops::{BinOp, BinOpMarker, UnOpMarker};
use crate::algebra::associative::Associative;
use crate::algebra::loops::Loop;
use crate::algebra::quasigroup::RightQuasigroup;
use crate::algebra::unital::LeftUnital;

/// A [group](https://en.wikipedia.org/wiki/Group_(mathematics)) is
/// [`Associative`] and a [`Loop`].
pub trait Group<Op: BinOpMarker>: Associative<Op> + Loop<Op> {
    /// The marker of the unary inverse operator.
    type Inv: UnOpMarker;

    /// Returns the inverse of a value: combining the inverse with the value
    /// gives back the identity.
    fn inv(&self) -> (r: Self)
        ensures
            r == <Self as BinOp<Self::RInv>>::op_spec(&Self::left_id_spec(), self),
            <Self as BinOp<Op>>::op_spec(&r, self) == Self::left_id_spec(),
    {
        self.left_inv()
    }
}

} // verus!
