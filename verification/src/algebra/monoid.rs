//! Monoids: unital and associative magmas.

use vstd::prelude::*;

verus! {

use crate::ops::BinOpMarker;
use crate::algebra::associative::{pow_products_ok, pow_spec, Associative, PowAssociative};
use crate::algebra::commutative::Commutative;
use crate::algebra::unital::Unital;

/// A [`Unital`] and [`PowAssociative`] structure, in which the zeroth power
/// can be taken to be the identity.
pub trait UnitalPowAssociative<Op: BinOpMarker>: Unital<Op> + PowAssociative<Op> {
    /// Evaluates `b op b op ... b`, applied `e` times, and assigns it to
    /// `self`. If `e = 0`, assigns the identity.
    ///
    /// If you don't care about the case where `e = 0`, consider using
    /// [`PowAssociative::pow_p`].
    fn pow_z(&mut self, e: u64) where Self: Copy
        requires
            pow_products_ok::<Op, Self>(*old(self), e as nat),
        ensures
            e == 0 ==> *final(self) == Self::left_id_spec(),
            e >= 1 ==> *final(self) == pow_spec::<Op, Self>(*old(self), e as nat),
    {
        if e == 0 {
            *self = Self::id();
        } else {
            self.pow_p(e);
        }
    }
}

impl<Op: BinOpMarker, T: Unital<Op> + PowAssociative<Op>> UnitalPowAssociative<Op> for T {
}

/// A [monoid](https://en.wikipedia.org/wiki/Monoid) is both [`Unital`] and
/// [`Associative`].
pub trait Monoid<Op: BinOpMarker>: Unital<Op> + Associative<Op> {
}

impl<Op: BinOpMarker, T: Unital<Op> + Associative<Op>> Monoid<Op> for T {
}

/// A [`Monoid`] that is also [`Commutative`].
pub trait CommutativeMonoid<Op: BinOpMarker>: Monoid<Op> + Commutative<Op> {
}

impl<Op: BinOpMarker, T: Monoid<Op> + Commutative<Op>> CommutativeMonoid<Op> for T {
}

} // verus!
