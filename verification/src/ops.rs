//! Traits and types that represent operations.
//!
//! A type marker (an empty struct implementing [`BinOpMarker`] or
//! [`UnOpMarker`]) names an operation, so that several operations can be
//! defined on the same carrier type. [`BinOp`] attaches the operation itself:
//! a mathematical model ([`BinOp::op_spec`]), its domain ([`BinOp::op_ok`])
//! and a checked run-time method held to both.

use vstd::prelude::*;

verus! {

use core::marker::PhantomData;

/// A trait representing type markers for n-ary operations.
pub trait OpMarker {}

/// A trait representing type markers for arbitrary binary operations. This
/// trait allows us to define multiple operations on the same types.
pub trait BinOpMarker: OpMarker {}

/// A trait representing type markers for arbitrary unary operations. This
/// trait allows us to define multiple operations on the same types.
pub trait UnOpMarker: OpMarker {}

/// A type marker for addition.
pub struct AddOp;

impl OpMarker for AddOp {}

impl BinOpMarker for AddOp {}

/// A type marker for subtraction.
pub struct SubOp;

impl OpMarker for SubOp {}

impl BinOpMarker for SubOp {}

/// A type marker for multiplication.
pub struct MulOp;

impl OpMarker for MulOp {}

impl BinOpMarker for MulOp {}

/// A type marker for division.
pub struct DivOp;

impl OpMarker for DivOp {}

impl BinOpMarker for DivOp {}

/// A type marker for bitwise and logical conjunction.
pub struct AndOp;

impl OpMarker for AndOp {}

impl BinOpMarker for AndOp {}

/// A type marker for bitwise and logical disjunction.
pub struct OrOp;

impl OpMarker for OrOp {}

impl BinOpMarker for OrOp {}

/// A type marker for bitwise and logical exclusive disjunction.
pub struct XorOp;

impl OpMarker for XorOp {}

impl BinOpMarker for XorOp {}

/// A type marker for negation.
pub struct NegOp;

impl OpMarker for NegOp {}

impl UnOpMarker for NegOp {}

/// A type marker for logical negation.
pub struct NotOp;

impl OpMarker for NotOp {}

impl UnOpMarker for NotOp {}

/// A type marker for reciprocals.
pub struct RecOp;

impl OpMarker for RecOp {}

impl UnOpMarker for RecOp {}

/// Represents a "backwards" operator, so that `a op b = b Bws(op) a`.
pub struct Bws<Op: BinOpMarker>(PhantomData<Op>);

impl<Op: BinOpMarker> OpMarker for Bws<Op> {}

impl<Op: BinOpMarker> BinOpMarker for Bws<Op> {}

/// A type whose values can be compared for equality at run time, with the
/// comparison agreeing with mathematical equality.
pub trait EqValue: Sized {
    /// Compares two values.
    fn eq_val(&self, other: &Self) -> (r: bool)
        ensures
            r <==> self == other,
    ;
}

/// A trait that specifies that a given binary operation may be applied to two
/// values of a type. This is where such binary operation is actually defined.
///
/// The checked method [`BinOp::bin_op`] succeeds exactly on the domain
/// [`BinOp::op_ok`], and then returns [`BinOp::op_spec`]. Nothing more is
/// promised here: any stronger property (associativity, identities) is a law
/// of a stronger trait.
pub trait BinOp<Op: BinOpMarker>: Sized {
    /// The error type of the checked method.
    type Err;

    /// The mathematical model of the operation.
    spec fn op_spec(&self, rhs: &Self) -> Self;

    /// The domain of the operation: where the checked method succeeds.
    spec fn op_ok(&self, rhs: &Self) -> bool;

    /// Applies the binary operation on `self` and `rhs`.
    fn bin_op(&self, rhs: &Self) -> (r: Result<Self, Self::Err>)
        ensures
            r is Ok <==> self.op_ok(rhs),
            r matches Ok(v) ==> v == self.op_spec(rhs),
    ;
}

/// A trait that specifies that a given binary operation may be applied to two
/// values of a type, and assigned to either.
pub trait BinOpAssign<Op: BinOpMarker>: BinOp<Op> {
    /// Applies the binary operation on `self` and `rhs`, assigns it to
    /// `self`. On failure, leaves `self` unchanged.
    fn bin_op_assign_lhs(&mut self, rhs: &Self) -> (r: Result<(), <Self as BinOp<Op>>::Err>)
        ensures
            r is Ok <==> <Self as BinOp<Op>>::op_ok(old(self), rhs),
            r is Ok ==> *final(self) == <Self as BinOp<Op>>::op_spec(old(self), rhs),
            r is Err ==> *final(self) == *old(self),
    ;

    /// Applies the binary operation on `self` and `rhs`, assigns it to
    /// `rhs`. On failure, leaves `rhs` unchanged.
    fn bin_op_assign_rhs(&self, rhs: &mut Self) -> (r: Result<(), <Self as BinOp<Op>>::Err>)
        ensures
            r is Ok <==> <Self as BinOp<Op>>::op_ok(self, old(rhs)),
            r is Ok ==> *final(rhs) == <Self as BinOp<Op>>::op_spec(self, old(rhs)),
            r is Err ==> *final(rhs) == *old(rhs),
    ;
}

/// A trait that specifies that a given binary operation may be applied to two
/// values of the same type, and assigned to either.
pub trait BinOpSet<Op: BinOpMarker>: Sized + BinOp<Op> + BinOpAssign<Op> {
}

impl<Op: BinOpMarker, T: Sized + BinOp<Op> + BinOpAssign<Op>> BinOpSet<Op> for T {
}

/// A trait that specifies that a given unary operation may be applied to a
/// type. This is where such unary operation is actually defined.
pub trait UnOp<Op: UnOpMarker>: Sized {
    /// The error type of the checked method.
    type Err;

    /// The mathematical model of the operation.
    spec fn un_op_spec(&self) -> Self;

    /// The domain of the operation: where the checked method succeeds.
    spec fn un_op_ok(&self) -> bool;

    /// Applies the unary operation on `self`.
    fn un_op(&self) -> (r: Result<Self, Self::Err>)
        ensures
            r is Ok <==> self.un_op_ok(),
            r matches Ok(v) ==> v == self.un_op_spec(),
    ;
}

/// A trait that specifies that a given unary operation may be applied to a
/// type and assigned to it.
pub trait UnOpAssign<Op: UnOpMarker>: UnOp<Op> {
    /// Applies the unary operation on `self` and assigns the result. On
    /// failure, leaves `self` unchanged.
    fn un_op_assign(&mut self) -> (r: Result<(), <Self as UnOp<Op>>::Err>)
        ensures
            r is Ok <==> <Self as UnOp<Op>>::un_op_ok(old(self)),
            r is Ok ==> *final(self) == <Self as UnOp<Op>>::un_op_spec(old(self)),
            r is Err ==> *final(self) == *old(self),
    ;
}

/// A unary operation together with its assigning form.
pub trait UnOpSet<Op: UnOpMarker>: UnOp<Op> + UnOpAssign<Op> {
}

impl<Op: UnOpMarker, T: UnOp<Op> + UnOpAssign<Op>> UnOpSet<Op> for T {
}

impl<Op: BinOpMarker, T: BinOp<Op>> BinOp<Bws<Op>> for T {
    type Err = <T as BinOp<Op>>::Err;

    open spec fn op_spec(&self, rhs: &Self) -> Self {
        <T as BinOp<Op>>::op_spec(rhs, self)
    }

    open spec fn op_ok(&self, rhs: &Self) -> bool {
        <T as BinOp<Op>>::op_ok(rhs, self)
    }

    fn bin_op(&self, rhs: &Self) -> (r: Result<Self, <T as BinOp<Op>>::Err>) {
        <T as BinOp<Op>>::bin_op(rhs, self)
    }
}

impl<Op: BinOpMarker, T: BinOpAssign<Op>> BinOpAssign<Bws<Op>> for T {
    fn bin_op_assign_lhs(&mut self, rhs: &Self) -> (r: Result<(), <T as BinOp<Op>>::Err>) {
        <T as BinOpAssign<Op>>::bin_op_assign_rhs(rhs, self)
    }

    fn bin_op_assign_rhs(&self, rhs: &mut Self) -> (r: Result<(), <T as BinOp<Op>>::Err>) {
        <T as BinOpAssign<Op>>::bin_op_assign_lhs(rhs, self)
    }
}

} // verus!
