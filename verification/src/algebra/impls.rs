//! Implements the operations and algebraic structures for primitive types.
//!
//! The unsigned integers carry checked addition, subtraction, multiplication
//! and division, exactly on the inputs where the mathematical result fits;
//! the booleans carry the total logical operations, under which they form the
//! smallest nontrivial examples of the structures in this hierarchy.

use vstd::prelude::*;

verus! {

use crate::ops::{AddOp, AndOp, BinOp, BinOpAssign, DivOp, EqValue, MulOp, NegOp, NotOp, OrOp,
    RecOp, SubOp, UnOp, UnOpAssign, XorOp};
use crate::algebra::group::Group;
use crate::algebra::involution::{Automorphism, Endomorphism, Injective, Involution, Surjective};
use crate::algebra::loops::{LeftBolLoop, RightBolLoop};
use crate::algebra::naturals::Naturals;
use crate::algebra::absorbing::{LeftAbsorbing, RightAbsorbing};
use crate::algebra::associative::{lemma_pow_add, Associative, LeftAlternative, PowAssociative,
    RightAlternative};
use crate::algebra::commutative::Commutative;
use crate::algebra::magma::Magma;
use crate::algebra::quasigroup::{LeftQuasigroup, RightQuasigroup};
use crate::algebra::unital::{LeftUnital, RightUnital};


impl EqValue for bool {
    fn eq_val(&self, other: &Self) -> bool {
        *self == *other
    }
}

impl EqValue for u8 {
    fn eq_val(&self, other: &Self) -> bool {
        *self == *other
    }
}

impl EqValue for u64 {
    fn eq_val(&self, other: &Self) -> bool {
        *self == *other
    }
}

impl BinOp<AndOp> for bool {
    type Err = ();

    open spec fn op_spec(&self, rhs: &Self) -> Self {
        *self && *rhs
    }

    open spec fn op_ok(&self, rhs: &Self) -> bool {
        true
    }

    fn bin_op(&self, rhs: &Self) -> Result<Self, ()> {
        Ok(*self && *rhs)
    }
}

impl BinOpAssign<AndOp> for bool {
    fn bin_op_assign_lhs(&mut self, rhs: &Self) -> Result<(), ()> {
        *self = *self && *rhs;
        Ok(())
    }

    fn bin_op_assign_rhs(&self, rhs: &mut Self) -> Result<(), ()> {
        *rhs = *self && *rhs;
        Ok(())
    }
}

impl BinOp<OrOp> for bool {
    type Err = ();

    open spec fn op_spec(&self, rhs: &Self) -> Self {
        *self || *rhs
    }

    open spec fn op_ok(&self, rhs: &Self) -> bool {
        true
    }

    fn bin_op(&self, rhs: &Self) -> Result<Self, ()> {
        Ok(*self || *rhs)
    }
}

impl BinOpAssign<OrOp> for bool {
    fn bin_op_assign_lhs(&mut self, rhs: &Self) -> Result<(), ()> {
        *self = *self || *rhs;
        Ok(())
    }

    fn bin_op_assign_rhs(&self, rhs: &mut Self) -> Result<(), ()> {
        *rhs = *self || *rhs;
        Ok(())
    }
}

impl BinOp<XorOp> for bool {
    type Err = ();

    open spec fn op_spec(&self, rhs: &Self) -> Self {
        *self != *rhs
    }

    open spec fn op_ok(&self, rhs: &Self) -> bool {
        true
    }

    fn bin_op(&self, rhs: &Self) -> Result<Self, ()> {
        Ok(*self != *rhs)
    }
}

impl BinOpAssign<XorOp> for bool {
    fn bin_op_assign_lhs(&mut self, rhs: &Self) -> Result<(), ()> {
        *self = *self != *rhs;
        Ok(())
    }

    fn bin_op_assign_rhs(&self, rhs: &mut Self) -> Result<(), ()> {
        *rhs = *self != *rhs;
        Ok(())
    }
}

impl BinOp<AddOp> for u8 {
    type Err = ();

    open spec fn op_spec(&self, rhs: &Self) -> Self {
        (*self + *rhs) as u8
    }

    open spec fn op_ok(&self, rhs: &Self) -> bool {
        *self + *rhs <= u8::MAX
    }

    fn bin_op(&self, rhs: &Self) -> Result<Self, ()> {
        match self.checked_add(*rhs) {
            Some(v) => Ok(v),
            None => Err(()),
        }
    }
}

impl BinOpAssign<AddOp> for u8 {
    fn bin_op_assign_lhs(&mut self, rhs: &Self) -> Result<(), ()> {
        match self.checked_add(*rhs) {
            Some(v) => {
                *self = v;
                Ok(())
            },
            None => Err(()),
        }
    }

    fn bin_op_assign_rhs(&self, rhs: &mut Self) -> Result<(), ()> {
        match self.checked_add(*rhs) {
            Some(v) => {
                *rhs = v;
                Ok(())
            },
            None => Err(()),
        }
    }
}

impl BinOp<MulOp> for u8 {
    type Err = ();

    open spec fn op_spec(&self, rhs: &Self) -> Self {
        (*self * *rhs) as u8
    }

    open spec fn op_ok(&self, rhs: &Self) -> bool {
        *self * *rhs <= u8::MAX
    }

    fn bin_op(&self, rhs: &Self) -> Result<Self, ()> {
        match self.checked_mul(*rhs) {
            Some(v) => Ok(v),
            None => Err(()),
        }
    }
}

impl BinOpAssign<MulOp> for u8 {
    fn bin_op_assign_lhs(&mut self, rhs: &Self) -> Result<(), ()> {
        match self.checked_mul(*rhs) {
            Some(v) => {
                *self = v;
                Ok(())
            },
            None => Err(()),
        }
    }

    fn bin_op_assign_rhs(&self, rhs: &mut Self) -> Result<(), ()> {
        match self.checked_mul(*rhs) {
            Some(v) => {
                *rhs = v;
                Ok(())
            },
            None => Err(()),
        }
    }
}

impl BinOp<AddOp> for u64 {
    type Err = ();

    open spec fn op_spec(&self, rhs: &Self) -> Self {
        (*self + *rhs) as u64
    }

    open spec fn op_ok(&self, rhs: &Self) -> bool {
        *self + *rhs <= u64::MAX
    }

    fn bin_op(&self, rhs: &Self) -> Result<Self, ()> {
        match self.checked_add(*rhs) {
            Some(v) => Ok(v),
            None => Err(()),
        }
    }
}

impl BinOpAssign<AddOp> for u64 {
    fn bin_op_assign_lhs(&mut self, rhs: &Self) -> Result<(), ()> {
        match self.checked_add(*rhs) {
            Some(v) => {
                *self = v;
                Ok(())
            },
            None => Err(()),
        }
    }

    fn bin_op_assign_rhs(&self, rhs: &mut Self) -> Result<(), ()> {
        match self.checked_add(*rhs) {
            Some(v) => {
                *rhs = v;
                Ok(())
            },
            None => Err(()),
        }
    }
}

impl BinOp<MulOp> for u64 {
    type Err = ();

    open spec fn op_spec(&self, rhs: &Self) -> Self {
        (*self * *rhs) as u64
    }

    open spec fn op_ok(&self, rhs: &Self) -> bool {
        *self * *rhs <= u64::MAX
    }

    fn bin_op(&self, rhs: &Self) -> Result<Self, ()> {
        match self.checked_mul(*rhs) {
            Some(v) => Ok(v),
            None => Err(()),
        }
    }
}

impl BinOpAssign<MulOp> for u64 {
    fn bin_op_assign_lhs(&mut self, rhs: &Self) -> Result<(), ()> {
        match self.checked_mul(*rhs) {
            Some(v) => {
                *self = v;
                Ok(())
            },
            None => Err(()),
        }
    }

    fn bin_op_assign_rhs(&self, rhs: &mut Self) -> Result<(), ()> {
        match self.checked_mul(*rhs) {
            Some(v) => {
                *rhs = v;
                Ok(())
            },
            None => Err(()),
        }
    }
}

impl BinOp<SubOp> for u64 {
    type Err = ();

    open spec fn op_spec(&self, rhs: &Self) -> Self {
        (*self - *rhs) as u64
    }

    open spec fn op_ok(&self, rhs: &Self) -> bool {
        *rhs <= *self
    }

    fn bin_op(&self, rhs: &Self) -> Result<Self, ()> {
        match self.checked_sub(*rhs) {
            Some(v) => Ok(v),
            None => Err(()),
        }
    }
}

impl BinOpAssign<SubOp> for u64 {
    fn bin_op_assign_lhs(&mut self, rhs: &Self) -> Result<(), ()> {
        match self.checked_sub(*rhs) {
            Some(v) => {
                *self = v;
                Ok(())
            },
            None => Err(()),
        }
    }

    fn bin_op_assign_rhs(&self, rhs: &mut Self) -> Result<(), ()> {
        match self.checked_sub(*rhs) {
            Some(v) => {
                *rhs = v;
                Ok(())
            },
            None => Err(()),
        }
    }
}

impl BinOp<DivOp> for u64 {
    type Err = ();

    open spec fn op_spec(&self, rhs: &Self) -> Self {
        (*self / *rhs) as u64
    }

    open spec fn op_ok(&self, rhs: &Self) -> bool {
        *rhs != 0
    }

    fn bin_op(&self, rhs: &Self) -> Result<Self, ()> {
        match self.checked_div(*rhs) {
            Some(v) => Ok(v),
            None => Err(()),
        }
    }
}

impl BinOpAssign<DivOp> for u64 {
    fn bin_op_assign_lhs(&mut self, rhs: &Self) -> Result<(), ()> {
        match self.checked_div(*rhs) {
            Some(v) => {
                *self = v;
                Ok(())
            },
            None => Err(()),
        }
    }

    fn bin_op_assign_rhs(&self, rhs: &mut Self) -> Result<(), ()> {
        match self.checked_div(*rhs) {
            Some(v) => {
                *rhs = v;
                Ok(())
            },
            None => Err(()),
        }
    }
}

impl Magma<AndOp> for bool {
}

impl Magma<OrOp> for bool {
}

impl Magma<XorOp> for bool {
}

impl Magma<AddOp> for u8 {
}

impl Magma<MulOp> for u8 {
}

impl Magma<AddOp> for u64 {
}

impl Magma<MulOp> for u64 {
}

impl Magma<SubOp> for u64 {
}

impl Magma<DivOp> for u64 {
}

impl UnOp<NotOp> for bool {
    type Err = ();

    open spec fn un_op_spec(&self) -> Self {
        !*self
    }

    open spec fn un_op_ok(&self) -> bool {
        true
    }

    fn un_op(&self) -> Result<Self, ()> {
        Ok(!*self)
    }
}

impl UnOpAssign<NotOp> for bool {
    fn un_op_assign(&mut self) -> Result<(), ()> {
        *self = !*self;
        Ok(())
    }
}

impl Commutative<AndOp> for bool {
    proof fn comm_law(a: &Self, b: &Self) {
    }
}

impl Commutative<OrOp> for bool {
    proof fn comm_law(a: &Self, b: &Self) {
    }
}

impl Commutative<XorOp> for bool {
    proof fn comm_law(a: &Self, b: &Self) {
    }
}

impl Commutative<AddOp> for u8 {
    proof fn comm_law(a: &Self, b: &Self) {
    }
}

impl Commutative<MulOp> for u8 {
    proof fn comm_law(a: &Self, b: &Self) {
    }
}

impl Commutative<AddOp> for u64 {
    proof fn comm_law(a: &Self, b: &Self) {
    }
}

impl Commutative<MulOp> for u64 {
    proof fn comm_law(a: &Self, b: &Self) {
    }
}

impl LeftUnital<AndOp> for bool {
    open spec fn left_id_spec() -> Self {
        true
    }

    proof fn left_id_law(a: &Self) {
        assert(<bool as LeftUnital<AndOp>>::left_id_spec() == true);
    }

    fn left_id() -> Self {
        true
    }
}

impl RightUnital<AndOp> for bool {
    open spec fn right_id_spec() -> Self {
        true
    }

    proof fn right_id_law(a: &Self) {
        assert(<bool as RightUnital<AndOp>>::right_id_spec() == true);
    }

    fn right_id() -> Self {
        true
    }
}

impl LeftUnital<OrOp> for bool {
    open spec fn left_id_spec() -> Self {
        false
    }

    proof fn left_id_law(a: &Self) {
        assert(<bool as LeftUnital<OrOp>>::left_id_spec() == false);
    }

    fn left_id() -> Self {
        false
    }
}

impl RightUnital<OrOp> for bool {
    open spec fn right_id_spec() -> Self {
        false
    }

    proof fn right_id_law(a: &Self) {
        assert(<bool as RightUnital<OrOp>>::right_id_spec() == false);
    }

    fn right_id() -> Self {
        false
    }
}

impl LeftUnital<XorOp> for bool {
    open spec fn left_id_spec() -> Self {
        false
    }

    proof fn left_id_law(a: &Self) {
        assert(<bool as LeftUnital<XorOp>>::left_id_spec() == false);
    }

    fn left_id() -> Self {
        false
    }
}

impl RightUnital<XorOp> for bool {
    open spec fn right_id_spec() -> Self {
        false
    }

    proof fn right_id_law(a: &Self) {
        assert(<bool as RightUnital<XorOp>>::right_id_spec() == false);
    }

    fn right_id() -> Self {
        false
    }
}

impl LeftUnital<AddOp> for u8 {
    open spec fn left_id_spec() -> Self {
        0
    }

    proof fn left_id_law(a: &Self) {
        assert(<u8 as LeftUnital<AddOp>>::left_id_spec() == 0);
    }

    fn left_id() -> Self {
        0
    }
}

impl RightUnital<AddOp> for u8 {
    open spec fn right_id_spec() -> Self {
        0
    }

    proof fn right_id_law(a: &Self) {
        assert(<u8 as RightUnital<AddOp>>::right_id_spec() == 0);
    }

    fn right_id() -> Self {
        0
    }
}

impl LeftUnital<MulOp> for u8 {
    open spec fn left_id_spec() -> Self {
        1
    }

    proof fn left_id_law(a: &Self) {
        assert(<u8 as LeftUnital<MulOp>>::left_id_spec() == 1);
    }

    fn left_id() -> Self {
        1
    }
}

impl RightUnital<MulOp> for u8 {
    open spec fn right_id_spec() -> Self {
        1
    }

    proof fn right_id_law(a: &Self) {
        assert(<u8 as RightUnital<MulOp>>::right_id_spec() == 1);
    }

    fn right_id() -> Self {
        1
    }
}

impl LeftUnital<AddOp> for u64 {
    open spec fn left_id_spec() -> Self {
        0
    }

    proof fn left_id_law(a: &Self) {
        assert(<u64 as LeftUnital<AddOp>>::left_id_spec() == 0);
    }

    fn left_id() -> Self {
        0
    }
}

impl RightUnital<AddOp> for u64 {
    open spec fn right_id_spec() -> Self {
        0
    }

    proof fn right_id_law(a: &Self) {
        assert(<u64 as RightUnital<AddOp>>::right_id_spec() == 0);
    }

    fn right_id() -> Self {
        0
    }
}

impl LeftUnital<MulOp> for u64 {
    open spec fn left_id_spec() -> Self {
        1
    }

    proof fn left_id_law(a: &Self) {
        assert(<u64 as LeftUnital<MulOp>>::left_id_spec() == 1);
    }

    fn left_id() -> Self {
        1
    }
}

impl RightUnital<MulOp> for u64 {
    open spec fn right_id_spec() -> Self {
        1
    }

    proof fn right_id_law(a: &Self) {
        assert(<u64 as RightUnital<MulOp>>::right_id_spec() == 1);
    }

    fn right_id() -> Self {
        1
    }
}

impl RightUnital<SubOp> for u64 {
    open spec fn right_id_spec() -> Self {
        0
    }

    proof fn right_id_law(a: &Self) {
        assert(<u64 as RightUnital<SubOp>>::right_id_spec() == 0);
    }

    fn right_id() -> Self {
        0
    }
}

impl RightUnital<DivOp> for u64 {
    open spec fn right_id_spec() -> Self {
        1
    }

    proof fn right_id_law(a: &Self) {
        assert(<u64 as RightUnital<DivOp>>::right_id_spec() == 1);
    }

    fn right_id() -> Self {
        1
    }
}

impl LeftAbsorbing<MulOp> for u8 {
    open spec fn left_absorb_spec() -> Self {
        0
    }

    proof fn left_absorb_law(a: &Self) {
        assert(<u8 as LeftAbsorbing<MulOp>>::left_absorb_spec() == 0);
    }

    fn left_absorb() -> Self {
        0
    }
}

impl RightAbsorbing<MulOp> for u8 {
    open spec fn right_absorb_spec() -> Self {
        0
    }

    proof fn right_absorb_law(a: &Self) {
        assert(<u8 as RightAbsorbing<MulOp>>::right_absorb_spec() == 0);
    }

    fn right_absorb() -> Self {
        0
    }
}

impl LeftAbsorbing<MulOp> for u64 {
    open spec fn left_absorb_spec() -> Self {
        0
    }

    proof fn left_absorb_law(a: &Self) {
        assert(<u64 as LeftAbsorbing<MulOp>>::left_absorb_spec() == 0);
    }

    fn left_absorb() -> Self {
        0
    }
}

impl RightAbsorbing<MulOp> for u64 {
    open spec fn right_absorb_spec() -> Self {
        0
    }

    proof fn right_absorb_law(a: &Self) {
        assert(<u64 as RightAbsorbing<MulOp>>::right_absorb_spec() == 0);
    }

    fn right_absorb() -> Self {
        0
    }
}

impl LeftAbsorbing<AndOp> for bool {
    open spec fn left_absorb_spec() -> Self {
        false
    }

    proof fn left_absorb_law(a: &Self) {
        assert(<bool as LeftAbsorbing<AndOp>>::left_absorb_spec() == false);
    }

    fn left_absorb() -> Self {
        false
    }
}

impl RightAbsorbing<AndOp> for bool {
    open spec fn right_absorb_spec() -> Self {
        false
    }

    proof fn right_absorb_law(a: &Self) {
        assert(<bool as RightAbsorbing<AndOp>>::right_absorb_spec() == false);
    }

    fn right_absorb() -> Self {
        false
    }
}

impl LeftAbsorbing<OrOp> for bool {
    open spec fn left_absorb_spec() -> Self {
        true
    }

    proof fn left_absorb_law(a: &Self) {
        assert(<bool as LeftAbsorbing<OrOp>>::left_absorb_spec() == true);
    }

    fn left_absorb() -> Self {
        true
    }
}

impl RightAbsorbing<OrOp> for bool {
    open spec fn right_absorb_spec() -> Self {
        true
    }

    proof fn right_absorb_law(a: &Self) {
        assert(<bool as RightAbsorbing<OrOp>>::right_absorb_spec() == true);
    }

    fn right_absorb() -> Self {
        true
    }
}

/// Associativity of the operation, in closed form, for use by the laws below.
proof fn bool_and_assoc()
    ensures
        forall|a: bool, b: bool, c: bool|
            #[trigger] <bool as BinOp<AndOp>>::op_spec(&<bool as BinOp<AndOp>>::op_spec(&a, &b), &c) == <bool as BinOp<AndOp>>::op_spec(&a, &<bool as BinOp<AndOp>>::op_spec(&b, &c)),
{
    assert forall|a: bool, b: bool, c: bool|
        #[trigger] <bool as BinOp<AndOp>>::op_spec(&<bool as BinOp<AndOp>>::op_spec(&a, &b), &c) == <bool as BinOp<AndOp>>::op_spec(&a, &<bool as BinOp<AndOp>>::op_spec(&b, &c)) by {
        
    }
}

/// Associativity of the operation, in closed form, for use by the laws below.
proof fn bool_or_assoc()
    ensures
        forall|a: bool, b: bool, c: bool|
            #[trigger] <bool as BinOp<OrOp>>::op_spec(&<bool as BinOp<OrOp>>::op_spec(&a, &b), &c) == <bool as BinOp<OrOp>>::op_spec(&a, &<bool as BinOp<OrOp>>::op_spec(&b, &c)),
{
    assert forall|a: bool, b: bool, c: bool|
        #[trigger] <bool as BinOp<OrOp>>::op_spec(&<bool as BinOp<OrOp>>::op_spec(&a, &b), &c) == <bool as BinOp<OrOp>>::op_spec(&a, &<bool as BinOp<OrOp>>::op_spec(&b, &c)) by {
        
    }
}

/// Associativity of the operation, in closed form, for use by the laws below.
proof fn bool_xor_assoc()
    ensures
        forall|a: bool, b: bool, c: bool|
            #[trigger] <bool as BinOp<XorOp>>::op_spec(&<bool as BinOp<XorOp>>::op_spec(&a, &b), &c) == <bool as BinOp<XorOp>>::op_spec(&a, &<bool as BinOp<XorOp>>::op_spec(&b, &c)),
{
    assert forall|a: bool, b: bool, c: bool|
        #[trigger] <bool as BinOp<XorOp>>::op_spec(&<bool as BinOp<XorOp>>::op_spec(&a, &b), &c) == <bool as BinOp<XorOp>>::op_spec(&a, &<bool as BinOp<XorOp>>::op_spec(&b, &c)) by {
        
    }
}

/// Associativity of the operation, in closed form, for use by the laws below.
proof fn u8_add_assoc()
    ensures
        forall|a: u8, b: u8, c: u8|
            #[trigger] <u8 as BinOp<AddOp>>::op_spec(&<u8 as BinOp<AddOp>>::op_spec(&a, &b), &c) == <u8 as BinOp<AddOp>>::op_spec(&a, &<u8 as BinOp<AddOp>>::op_spec(&b, &c)),
{
    assert forall|a: u8, b: u8, c: u8|
        #[trigger] <u8 as BinOp<AddOp>>::op_spec(&<u8 as BinOp<AddOp>>::op_spec(&a, &b), &c) == <u8 as BinOp<AddOp>>::op_spec(&a, &<u8 as BinOp<AddOp>>::op_spec(&b, &c)) by {
        assert((((a + b) as u8) + c) as u8 == (a + ((b + c) as u8)) as u8) by (bit_vector);
    }
}

/// Associativity of the operation, in closed form, for use by the laws below.
proof fn u8_mul_assoc()
    ensures
        forall|a: u8, b: u8, c: u8|
            #[trigger] <u8 as BinOp<MulOp>>::op_spec(&<u8 as BinOp<MulOp>>::op_spec(&a, &b), &c) == <u8 as BinOp<MulOp>>::op_spec(&a, &<u8 as BinOp<MulOp>>::op_spec(&b, &c)),
{
    assert forall|a: u8, b: u8, c: u8|
        #[trigger] <u8 as BinOp<MulOp>>::op_spec(&<u8 as BinOp<MulOp>>::op_spec(&a, &b), &c) == <u8 as BinOp<MulOp>>::op_spec(&a, &<u8 as BinOp<MulOp>>::op_spec(&b, &c)) by {
        assert((((a * b) as u8) * c) as u8 == (a * ((b * c) as u8)) as u8) by (bit_vector);
    }
}

/// Associativity of the operation, in closed form, for use by the laws below.
proof fn u64_add_assoc()
    ensures
        forall|a: u64, b: u64, c: u64|
            #[trigger] <u64 as BinOp<AddOp>>::op_spec(&<u64 as BinOp<AddOp>>::op_spec(&a, &b), &c) == <u64 as BinOp<AddOp>>::op_spec(&a, &<u64 as BinOp<AddOp>>::op_spec(&b, &c)),
{
    assert forall|a: u64, b: u64, c: u64|
        #[trigger] <u64 as BinOp<AddOp>>::op_spec(&<u64 as BinOp<AddOp>>::op_spec(&a, &b), &c) == <u64 as BinOp<AddOp>>::op_spec(&a, &<u64 as BinOp<AddOp>>::op_spec(&b, &c)) by {
        assert((((a + b) as u64) + c) as u64 == (a + ((b + c) as u64)) as u64) by (bit_vector);
    }
}

impl PowAssociative<AndOp> for bool {
    proof fn pow_law(x: &Self, m: nat, n: nat) {
        bool_and_assoc();
        lemma_pow_add::<AndOp, bool>(*x, m, n);
    }
}

impl LeftAlternative<AndOp> for bool {
    proof fn left_alt_law(a: &Self, b: &Self) {
        bool_and_assoc();
    }
}

impl RightAlternative<AndOp> for bool {
    proof fn right_alt_law(a: &Self, b: &Self) {
        bool_and_assoc();
    }
}

impl Associative<AndOp> for bool {
    proof fn assoc_law(a: &Self, b: &Self, c: &Self) {
        bool_and_assoc();
    }
}

impl PowAssociative<OrOp> for bool {
    proof fn pow_law(x: &Self, m: nat, n: nat) {
        bool_or_assoc();
        lemma_pow_add::<OrOp, bool>(*x, m, n);
    }
}

impl LeftAlternative<OrOp> for bool {
    proof fn left_alt_law(a: &Self, b: &Self) {
        bool_or_assoc();
    }
}

impl RightAlternative<OrOp> for bool {
    proof fn right_alt_law(a: &Self, b: &Self) {
        bool_or_assoc();
    }
}

impl Associative<OrOp> for bool {
    proof fn assoc_law(a: &Self, b: &Self, c: &Self) {
        bool_or_assoc();
    }
}

impl PowAssociative<XorOp> for bool {
    proof fn pow_law(x: &Self, m: nat, n: nat) {
        bool_xor_assoc();
        lemma_pow_add::<XorOp, bool>(*x, m, n);
    }
}

impl LeftAlternative<XorOp> for bool {
    proof fn left_alt_law(a: &Self, b: &Self) {
        bool_xor_assoc();
    }
}

impl RightAlternative<XorOp> for bool {
    proof fn right_alt_law(a: &Self, b: &Self) {
        bool_xor_assoc();
    }
}

impl Associative<XorOp> for bool {
    proof fn assoc_law(a: &Self, b: &Self, c: &Self) {
        bool_xor_assoc();
    }
}

impl PowAssociative<AddOp> for u8 {
    proof fn pow_law(x: &Self, m: nat, n: nat) {
        u8_add_assoc();
        lemma_pow_add::<AddOp, u8>(*x, m, n);
    }
}

impl LeftAlternative<AddOp> for u8 {
    proof fn left_alt_law(a: &Self, b: &Self) {
        u8_add_assoc();
    }
}

impl RightAlternative<AddOp> for u8 {
    proof fn right_alt_law(a: &Self, b: &Self) {
        u8_add_assoc();
    }
}

impl Associative<AddOp> for u8 {
    proof fn assoc_law(a: &Self, b: &Self, c: &Self) {
        u8_add_assoc();
    }
}

impl PowAssociative<MulOp> for u8 {
    proof fn pow_law(x: &Self, m: nat, n: nat) {
        u8_mul_assoc();
        lemma_pow_add::<MulOp, u8>(*x, m, n);
    }
}

impl LeftAlternative<MulOp> for u8 {
    proof fn left_alt_law(a: &Self, b: &Self) {
        u8_mul_assoc();
    }
}

impl RightAlternative<MulOp> for u8 {
    proof fn right_alt_law(a: &Self, b: &Self) {
        u8_mul_assoc();
    }
}

impl Associative<MulOp> for u8 {
    proof fn assoc_law(a: &Self, b: &Self, c: &Self) {
        u8_mul_assoc();
    }
}

impl PowAssociative<AddOp> for u64 {
    proof fn pow_law(x: &Self, m: nat, n: nat) {
        u64_add_assoc();
        lemma_pow_add::<AddOp, u64>(*x, m, n);
    }
}

impl LeftAlternative<AddOp> for u64 {
    proof fn left_alt_law(a: &Self, b: &Self) {
        u64_add_assoc();
    }
}

impl RightAlternative<AddOp> for u64 {
    proof fn right_alt_law(a: &Self, b: &Self) {
        u64_add_assoc();
    }
}

impl Associative<AddOp> for u64 {
    proof fn assoc_law(a: &Self, b: &Self, c: &Self) {
        u64_add_assoc();
    }
}

impl LeftQuasigroup<XorOp> for bool {
    type LInv = XorOp;

    proof fn left_div_law(a: &Self, b: &Self) {
    }
}

impl RightQuasigroup<XorOp> for bool {
    type RInv = XorOp;

    proof fn right_div_law(a: &Self, b: &Self) {
    }
}

impl LeftBolLoop<XorOp> for bool {
    proof fn left_bol_law(a: &Self, b: &Self, c: &Self) {
    }
}

impl RightBolLoop<XorOp> for bool {
    proof fn right_bol_law(a: &Self, b: &Self, c: &Self) {
    }
}

impl Group<XorOp> for bool {
    type Inv = NotOp;
}

impl Endomorphism<NotOp> for bool {
}

impl Injective<NotOp> for bool {
    type Inv = NotOp;

    proof fn inv_law(a: &Self) {
    }
}

impl Surjective<NotOp> for bool {
}

impl Automorphism<NotOp> for bool {
    proof fn auto_law(a: &Self) {
    }
}

impl Involution<NotOp> for bool {
    proof fn involution_law(a: &Self) {
    }
}

impl Naturals for u8 {
    open spec fn nat_val(&self) -> nat {
        *self as nat
    }

    proof fn arith_law(a: &Self, b: &Self) {
        assert(<u8 as LeftUnital<AddOp>>::left_id_spec() == 0);
        assert(<u8 as LeftUnital<MulOp>>::left_id_spec() == 1);
    }

    fn eq_prim(&self, n: u64) -> bool {
        (*self as u64) == n
    }

    fn lt_prim(&self, n: u64) -> bool {
        (*self as u64) < n
    }

    fn is_even(&self) -> bool {
        *self % 2 == 0
    }

    fn sub(&self, rhs: &Self) -> Self {
        *self - *rhs
    }

    fn div_assign_prim(&mut self, n: u64) {
        let q = (*self as u64) / n;
        proof {
            assert(q <= (*self as u64)) by (nonlinear_arith)
                requires
                    n >= 1,
                    q == (*self as u64) / n,
            ;
        }
        *self = q as u8;
    }
}


/// Associativity of the operation, in closed form, for use by the laws below.
proof fn u64_mul_assoc()
    ensures
        forall|a: u64, b: u64, c: u64|
            #[trigger] <u64 as BinOp<MulOp>>::op_spec(&<u64 as BinOp<MulOp>>::op_spec(&a, &b), &c) == <u64 as BinOp<MulOp>>::op_spec(&a, &<u64 as BinOp<MulOp>>::op_spec(&b, &c)),
{
    assert forall|a: u64, b: u64, c: u64|
        #[trigger] <u64 as BinOp<MulOp>>::op_spec(&<u64 as BinOp<MulOp>>::op_spec(&a, &b), &c) == <u64 as BinOp<MulOp>>::op_spec(&a, &<u64 as BinOp<MulOp>>::op_spec(&b, &c)) by {
        assert((((a * b) as u64) * c) as u64 == (a * ((b * c) as u64)) as u64) by (bit_vector);
    }
}

impl PowAssociative<MulOp> for u64 {
    proof fn pow_law(x: &Self, m: nat, n: nat) {
        u64_mul_assoc();
        lemma_pow_add::<MulOp, u64>(*x, m, n);
    }
}

impl LeftAlternative<MulOp> for u64 {
    proof fn left_alt_law(a: &Self, b: &Self) {
        u64_mul_assoc();
    }
}

impl RightAlternative<MulOp> for u64 {
    proof fn right_alt_law(a: &Self, b: &Self) {
        u64_mul_assoc();
    }
}

impl Associative<MulOp> for u64 {
    proof fn assoc_law(a: &Self, b: &Self, c: &Self) {
        u64_mul_assoc();
    }
}

impl Naturals for u64 {
    open spec fn nat_val(&self) -> nat {
        *self as nat
    }

    proof fn arith_law(a: &Self, b: &Self) {
        assert(<u64 as LeftUnital<AddOp>>::left_id_spec() == 0);
        assert(<u64 as LeftUnital<MulOp>>::left_id_spec() == 1);
    }

    fn eq_prim(&self, n: u64) -> bool {
        *self == n
    }

    fn lt_prim(&self, n: u64) -> bool {
        *self < n
    }

    fn is_even(&self) -> bool {
        *self % 2 == 0
    }

    fn sub(&self, rhs: &Self) -> Self {
        *self - *rhs
    }

    fn div_assign_prim(&mut self, n: u64) {
        *self = *self / n;
    }
}

impl EqValue for i64 {
    fn eq_val(&self, other: &Self) -> bool {
        *self == *other
    }
}

impl UnOp<NegOp> for i64 {
    type Err = ();

    open spec fn un_op_spec(&self) -> Self {
        (-*self) as i64
    }

    open spec fn un_op_ok(&self) -> bool {
        *self != i64::MIN
    }

    fn un_op(&self) -> Result<Self, ()> {
        if *self == i64::MIN {
            Err(())
        } else {
            Ok(-*self)
        }
    }
}

impl UnOpAssign<NegOp> for i64 {
    fn un_op_assign(&mut self) -> Result<(), ()> {
        if *self == i64::MIN {
            Err(())
        } else {
            *self = -*self;
            Ok(())
        }
    }
}

impl Endomorphism<NegOp> for i64 {
}

/// Negation on the signed integers is injective, but not an automorphism of
/// the carrier: the minimum value has no negation.
impl Injective<NegOp> for i64 {
    type Inv = NegOp;

    proof fn inv_law(a: &Self) {
    }
}

impl UnOp<RecOp> for u64 {
    type Err = ();

    open spec fn un_op_spec(&self) -> Self {
        (1 as u64 / *self) as u64
    }

    open spec fn un_op_ok(&self) -> bool {
        *self != 0
    }

    fn un_op(&self) -> Result<Self, ()> {
        if *self == 0 {
            Err(())
        } else {
            Ok(1 / *self)
        }
    }
}

impl UnOpAssign<RecOp> for u64 {
    fn un_op_assign(&mut self) -> Result<(), ()> {
        if *self == 0 {
            Err(())
        } else {
            *self = 1 / *self;
            Ok(())
        }
    }
}

/// The integer reciprocal is a closed unary operation away from zero, though
/// it is far from injective.
impl Endomorphism<RecOp> for u64 {
}

} // verus!
