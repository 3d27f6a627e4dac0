//! Natural numbers as an algebraic structure: a commutative monoid under
//! both addition and multiplication, with no overflow in the model.

use vstd::prelude::*;

verus! {

use crate::ops::{AddOp, BinOp, MulOp};
use crate::algebra::magma::Magma;
use crate::algebra::monoid::CommutativeMonoid;
use crate::algebra::unital::{LeftUnital, Unital};

/// The primitive unsigned integer types, as carriers of natural numbers.
pub trait PrimitiveNaturals: Copy {
}

impl PrimitiveNaturals for u8 {
}

impl PrimitiveNaturals for u16 {
}

impl PrimitiveNaturals for u32 {
}

impl PrimitiveNaturals for u64 {
}

impl PrimitiveNaturals for u128 {
}

/// An auxiliary trait that makes talking about [`Naturals`] easier: a type
/// carrying both an addition and a multiplication.
pub trait NaturalsAux: BinOp<AddOp> + BinOp<MulOp> {
}

impl<T: BinOp<AddOp> + BinOp<MulOp>> NaturalsAux for T {
}

/// A type whose values stand for
/// [natural numbers](https://en.wikipedia.org/wiki/Natural_number):
/// a [`CommutativeMonoid`] under both addition and multiplication, whose
/// operations, where defined, agree with the arithmetic of the modelled
/// number [`Naturals::nat_val`].
pub trait Naturals: CommutativeMonoid<AddOp> + CommutativeMonoid<MulOp> {
    /// The natural number a value stands for.
    spec fn nat_val(&self) -> nat;

    /// The law: the identities are zero and one, and the operations, on
    /// their domains, are the arithmetic of the modelled numbers.
    proof fn arith_law(a: &Self, b: &Self)
        ensures
            <Self as LeftUnital<AddOp>>::left_id_spec().nat_val() == 0,
            <Self as LeftUnital<MulOp>>::left_id_spec().nat_val() == 1,
            <Self as BinOp<AddOp>>::op_ok(a, b) ==> <Self as BinOp<AddOp>>::op_spec(a, b).nat_val()
                == a.nat_val() + b.nat_val(),
            <Self as BinOp<MulOp>>::op_ok(a, b) ==> <Self as BinOp<MulOp>>::op_spec(a, b).nat_val()
                == a.nat_val() * b.nat_val(),
    ;

    /// Returns the zero element.
    fn zero() -> (r: Self)
        ensures
            r.nat_val() == 0,
    {
        let r = <Self as Unital<AddOp>>::id();
        proof {
            Self::arith_law(&r, &r);
        }
        r
    }

    /// Returns the one element.
    fn one() -> (r: Self)
        ensures
            r.nat_val() == 1,
    {
        let r = <Self as Unital<MulOp>>::id();
        proof {
            Self::arith_law(&r, &r);
        }
        r
    }

    /// Determines whether `self` equals a primitive.
    fn eq_prim(&self, n: u64) -> (r: bool)
        ensures
            r <==> self.nat_val() == n,
    ;

    /// Determines whether `self` is less than a primitive.
    fn lt_prim(&self, n: u64) -> (r: bool)
        ensures
            r <==> self.nat_val() < n,
    ;

    /// Determines whether `self` does not equal a primitive.
    fn ne_prim(&self, n: u64) -> (r: bool)
        ensures
            r <==> self.nat_val() != n,
    {
        !self.eq_prim(n)
    }

    /// Determines whether `self` is less or equal to a primitive.
    fn le_prim(&self, n: u64) -> (r: bool)
        ensures
            r <==> self.nat_val() <= n,
    {
        self.lt_prim(n) || self.eq_prim(n)
    }

    /// Determines whether `self` is greater than a primitive.
    fn gt_prim(&self, n: u64) -> (r: bool)
        ensures
            r <==> self.nat_val() > n,
    {
        !self.le_prim(n)
    }

    /// Determines whether `self` is greater or equal to a primitive.
    fn ge_prim(&self, n: u64) -> (r: bool)
        ensures
            r <==> self.nat_val() >= n,
    {
        !self.lt_prim(n)
    }

    /// Returns whether `self` is even.
    fn is_even(&self) -> (r: bool)
        ensures
            r <==> self.nat_val() % 2 == 0,
    ;

    /// Returns whether `self` is odd.
    fn is_odd(&self) -> (r: bool)
        ensures
            r <==> self.nat_val() % 2 == 1,
    {
        !self.is_even()
    }

    /// Adds two values.
    fn add(&self, rhs: &Self) -> (r: Self)
        requires
            <Self as BinOp<AddOp>>::op_ok(self, rhs),
        ensures
            r.nat_val() == self.nat_val() + rhs.nat_val(),
    {
        proof {
            Self::arith_law(self, rhs);
        }
        <Self as Magma<AddOp>>::op(self, rhs)
    }

    /// Subtracts two values. The subtrahend must not exceed the minuend: the
    /// naturals are not closed under general subtraction.
    fn sub(&self, rhs: &Self) -> (r: Self)
        requires
            rhs.nat_val() <= self.nat_val(),
        ensures
            r.nat_val() == self.nat_val() - rhs.nat_val(),
    ;

    /// Multiplies `self` by a value, in place.
    fn mul_assign(&mut self, rhs: &Self)
        requires
            <Self as BinOp<MulOp>>::op_ok(old(self), rhs),
        ensures
            final(self).nat_val() == old(self).nat_val() * rhs.nat_val(),
    {
        proof {
            Self::arith_law(old(self), rhs);
        }
        <Self as Magma<MulOp>>::op_assign_lhs(self, rhs)
    }

    /// Divides `self` by a primitive, in place, rounding down.
    fn div_assign_prim(&mut self, n: u64)
        requires
            n != 0,
        ensures
            final(self).nat_val() == old(self).nat_val() / n as nat,
    ;
}

} // verus!
