//! Unary operations on a set: endomorphisms, their inverses, and
//! involutions.

use vstd::prelude::*;

verus! {

use vstd::pervasive::unreached;
use crate::ops::{EqValue, UnOp, UnOpAssign, UnOpMarker, UnOpSet};

/// Mathematically, an [endomorphism](https://en.wikipedia.org/wiki/Endomorphism)
/// is a set together with a closed unary operation. No further restrictions
/// are imposed.
///
/// In contrast to [`UnOpSet`], the methods here do not surface an error: they
/// require the operand to lie in the operation's domain.
pub trait Endomorphism<Op: UnOpMarker>: UnOpSet<Op> + EqValue {
    /// Applies the unary operation on a value.
    ///
    /// On non-copy types, this will often create a new buffer.
    fn op(&self) -> (r: Self)
        requires
            <Self as UnOp<Op>>::un_op_ok(self),
        ensures
            r == <Self as UnOp<Op>>::un_op_spec(self),
    {
        match <Self as UnOp<Op>>::un_op(self) {
            Ok(v) => v,
            Err(_) => unreached(),
        }
    }

    /// Applies the unary operation on a value, assigns the result to itself.
    fn op_assign(&mut self)
        requires
            <Self as UnOp<Op>>::un_op_ok(old(self)),
        ensures
            *final(self) == <Self as UnOp<Op>>::un_op_spec(old(self)),
    {
        match <Self as UnOpAssign<Op>>::un_op_assign(self) {
            Ok(u) => u,
            Err(_) => unreached(),
        }
    }
}

/// An [injective function](https://en.wikipedia.org/wiki/Injective_function)
/// is such that `op a = op b` implies `a = b`: it has a partial inverse.
pub trait Injective<Op: UnOpMarker>: Endomorphism<Op> + UnOpSet<Self::Inv> {
    /// The (partial) inverse operator of `op`, satisfying `Inv (op a) = a`
    /// for any `a`.
    type Inv: UnOpMarker;

    /// The law: on the image of the operation, the inverse is defined and
    /// undoes it.
    proof fn inv_law(a: &Self)
        requires
            <Self as UnOp<Op>>::un_op_ok(a),
        ensures
            <Self as UnOp<Self::Inv>>::un_op_ok(&<Self as UnOp<Op>>::un_op_spec(a)),
            <Self as UnOp<Self::Inv>>::un_op_spec(&<Self as UnOp<Op>>::un_op_spec(a)) == *a,
    ;

    /// Whenever `self` is of the form `op a`, returns the unique possible
    /// value of `a`. Returns an error otherwise.
    fn partial_inv(&self) -> (r: Result<Self, <Self as UnOp<Self::Inv>>::Err>)
        ensures
            r is Ok <==> <Self as UnOp<Self::Inv>>::un_op_ok(self),
            r matches Ok(v) ==> v == <Self as UnOp<Self::Inv>>::un_op_spec(self),
    {
        <Self as UnOp<Self::Inv>>::un_op(self)
    }

    /// Whenever `self` is of the form `op a`, returns the unique possible
    /// value of `a`. The caller establishes that this is the case.
    fn partial_inv_unchecked(&self) -> (r: Self)
        requires
            <Self as UnOp<Self::Inv>>::un_op_ok(self),
        ensures
            r == <Self as UnOp<Self::Inv>>::un_op_spec(self),
    {
        match <Self as UnOp<Self::Inv>>::un_op(self) {
            Ok(v) => v,
            Err(_) => unreached(),
        }
    }

    /// Whenever `self` is of the form `op a`, evaluates the unique possible
    /// value of `a` and assigns it to `self`. Returns an error otherwise.
    fn partial_inv_assign(&mut self) -> (r: Result<(), <Self as UnOp<Self::Inv>>::Err>)
        ensures
            r is Ok <==> <Self as UnOp<Self::Inv>>::un_op_ok(old(self)),
            r is Ok ==> *final(self) == <Self as UnOp<Self::Inv>>::un_op_spec(old(self)),
            r is Err ==> *final(self) == *old(self),
    {
        <Self as UnOpAssign<Self::Inv>>::un_op_assign(self)
    }

    /// Whenever `self` is of the form `op a`, evaluates the unique possible
    /// value of `a` and assigns it to `self`. The caller establishes that
    /// this is the case.
    fn partial_inv_assign_unchecked(&mut self)
        requires
            <Self as UnOp<Self::Inv>>::un_op_ok(old(self)),
        ensures
            *final(self) == <Self as UnOp<Self::Inv>>::un_op_spec(old(self)),
    {
        match <Self as UnOpAssign<Self::Inv>>::un_op_assign(self) {
            Ok(u) => u,
            Err(_) => unreached(),
        }
    }

    /// Tests that the inverse of the operation applied to a value equals the
    /// value. By the law, the test always passes.
    fn test_inv(&self) -> (r: bool)
        requires
            <Self as UnOp<Op>>::un_op_ok(self),
        ensures
            r,
    {
        proof {
            Self::inv_law(self);
        }
        let mut x = <Self as Endomorphism<Op>>::op(self);
        match x.partial_inv_assign() {
            Ok(u) => u,
            Err(_) => unreached(),
        }
        x.eq_val(self)
    }

    /// Tests that the inverse of the operation applied to a value equals the
    /// value, through the unchecked path. By the law, the test always
    /// passes.
    fn test_inv_unchecked(&self) -> (r: bool)
        requires
            <Self as UnOp<Op>>::un_op_ok(self),
        ensures
            r,
    {
        proof {
            Self::inv_law(self);
        }
        let mut x = <Self as Endomorphism<Op>>::op(self);
        x.partial_inv_assign_unchecked();
        x.eq_val(self)
    }
}

/// A [surjective function](https://en.wikipedia.org/wiki/Surjective_function)
/// is such that for every `a` there exists `b` such that `op b = a`.
pub trait Surjective<Op: UnOpMarker>: Endomorphism<Op> {
}

/// An [automorphism](https://en.wikipedia.org/wiki/Automorphism) is an
/// [`Endomorphism`] that is both [`Injective`] and [`Surjective`]: it is a
/// bijection of the carrier, total in both directions.
pub trait Automorphism<Op: UnOpMarker>: Injective<Op> + Surjective<Op> {
    /// The law: both the operation and its inverse are total, and they undo
    /// one another.
    proof fn auto_law(a: &Self)
        ensures
            <Self as UnOp<Op>>::un_op_ok(a),
            <Self as UnOp<Self::Inv>>::un_op_ok(a),
            <Self as UnOp<Op>>::un_op_spec(&<Self as UnOp<Self::Inv>>::un_op_spec(a)) == *a,
    ;

    /// The main operation on an [`Automorphism`].
    fn auto_op(&self) -> (r: Self)
        ensures
            r == <Self as UnOp<Op>>::un_op_spec(self),
    {
        proof {
            Self::auto_law(self);
        }
        <Self as Endomorphism<Op>>::op(self)
    }

    /// The main operation-assign on an [`Automorphism`].
    fn auto_op_assign(&mut self)
        ensures
            *final(self) == <Self as UnOp<Op>>::un_op_spec(old(self)),
    {
        proof {
            Self::auto_law(old(self));
        }
        <Self as Endomorphism<Op>>::op_assign(self)
    }

    /// The inverse operation on an [`Automorphism`].
    fn inv(&self) -> (r: Self)
        ensures
            r == <Self as UnOp<Self::Inv>>::un_op_spec(self),
    {
        proof {
            Self::auto_law(self);
        }
        self.partial_inv_unchecked()
    }

    /// The inverse operation-assign on an [`Automorphism`].
    fn inv_assign(&mut self)
        ensures
            *final(self) == <Self as UnOp<Self::Inv>>::un_op_spec(old(self)),
    {
        proof {
            Self::auto_law(old(self));
        }
        self.partial_inv_assign_unchecked()
    }

    /// Tests that the inverse of the operation applied to a value equals the
    /// value, and vice versa. By the laws, the test always passes.
    fn test_auto_inv(&self) -> (r: bool)
        ensures
            r,
    {
        proof {
            Self::auto_law(self);
            Self::inv_law(self);
        }
        let mut lhs = self.auto_op();
        lhs.inv_assign();
        if !lhs.eq_val(self) {
            return false;
        }
        let mut lhs = self.inv();
        lhs.auto_op_assign();
        lhs.eq_val(self)
    }
}

/// An involution is an [`Automorphism`] that gives the same result when
/// applied twice: it is its own inverse.
pub trait Involution<Op: UnOpMarker>: Automorphism<Op> {
    /// The law: the operation and its inverse coincide.
    proof fn involution_law(a: &Self)
        ensures
            <Self as UnOp<Op>>::un_op_spec(a) == <Self as UnOp<Self::Inv>>::un_op_spec(a),
    ;

    /// The main operation on an [`Involution`].
    fn involution_op(&self) -> (r: Self)
        ensures
            r == <Self as UnOp<Op>>::un_op_spec(self),
    {
        self.auto_op()
    }

    /// The main operation-assign on an [`Involution`].
    fn involution_op_assign(&mut self)
        ensures
            *final(self) == <Self as UnOp<Op>>::un_op_spec(old(self)),
    {
        self.auto_op_assign()
    }

    /// Tests that the function of a value is the same as its inverse. By the
    /// involution law, the test always passes.
    fn test_involution(&self) -> (r: bool)
        ensures
            r,
    {
        proof {
            Self::involution_law(self);
        }
        let x = self.auto_op();
        let y = self.inv();
        x.eq_val(&y)
    }
}

} // verus!
