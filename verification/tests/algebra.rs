//! Tests for the algebraic hierarchy: the laws on concrete values, powers,
//! identities and inverses.

use xmath::algebra::absorbing::{Absorbing, LeftAbsorbing, RightAbsorbing};
use xmath::algebra::associative::{Associative, LeftAlternative, PowAssociative, RightAlternative};
use xmath::algebra::commutative::Commutative;
use xmath::algebra::group::Group;
use xmath::algebra::involution::{Automorphism, Endomorphism, Injective, Involution};
use xmath::algebra::loops::{LeftBolLoop, Loop, RightBolLoop};
use xmath::algebra::magma::Magma;
use xmath::algebra::monoid::UnitalPowAssociative;
use xmath::algebra::naturals::Naturals;
use xmath::algebra::quasigroup::{LeftQuasigroup, Quasigroup, RightQuasigroup};
use xmath::algebra::unital::{LeftUnital, RightUnital, Unital};
use xmath::algebra::MaybeRef;
use xmath::ops::{AddOp, AndOp, BinOp, MulOp, NegOp, NotOp, OrOp, RecOp, SubOp, UnOp, XorOp};

#[test]
fn checked_ops() {
    assert_eq!(<u8 as BinOp<AddOp>>::bin_op(&200, &55), Ok(255));
    assert_eq!(<u8 as BinOp<AddOp>>::bin_op(&200, &56), Err(()));
    assert_eq!(<u8 as BinOp<MulOp>>::bin_op(&16, &16), Err(()));
    assert_eq!(<u64 as BinOp<SubOp>>::bin_op(&10, &11), Err(()));
    assert_eq!(<u64 as BinOp<SubOp>>::bin_op(&11, &10), Ok(1));
}

#[test]
fn magma_ops() {
    assert_eq!(<u64 as Magma<AddOp>>::op(&2, &3), 5);
    let mut x = 7u64;
    <u64 as Magma<MulOp>>::op_assign_lhs(&mut x, &6);
    assert_eq!(x, 42);
    let mut y = 5u64;
    <u64 as Magma<AddOp>>::op_assign_rhs(&1, &mut y);
    assert_eq!(y, 6);
}

#[test]
fn law_tests_pass() {
    // Commutativity, associativity and alternativity on sample values.
    assert!(<u8 as Commutative<AddOp>>::test_comm(&3, &4));
    assert!(<u64 as Commutative<MulOp>>::test_comm(&6, &7));
    assert!(<u8 as Associative<AddOp>>::test_assoc(&1, &2, &3));
    assert!(<u8 as Associative<MulOp>>::test_assoc(&2, &3, &4));
    assert!(<u64 as Associative<AddOp>>::test_assoc(&10, &20, &30));
    assert!(<bool as Associative<XorOp>>::test_assoc(&true, &false, &true));
    assert!(<u8 as LeftAlternative<AddOp>>::test_left_altern(&5, &6));
    assert!(<u8 as RightAlternative<AddOp>>::test_right_altern(&5, &6));
}

#[test]
fn identities() {
    assert_eq!(<u8 as Unital<AddOp>>::id(), 0);
    assert_eq!(<u8 as Unital<MulOp>>::id(), 1);
    assert_eq!(<u64 as LeftUnital<AddOp>>::left_id(), 0);
    assert_eq!(<u64 as RightUnital<SubOp>>::right_id(), 0);
    assert_eq!(<bool as Unital<AndOp>>::id(), true);
    assert_eq!(<bool as Unital<OrOp>>::id(), false);
    assert!(<u8 as LeftUnital<AddOp>>::test_left_id(&9));
    assert!(<u8 as RightUnital<MulOp>>::test_right_id(&9));
    assert!(<u64 as Unital<AddOp>>::test_id());
}

#[test]
fn absorbing_elements() {
    assert_eq!(<u8 as Absorbing<MulOp>>::absorb(), 0);
    assert_eq!(<bool as Absorbing<AndOp>>::absorb(), false);
    assert_eq!(<bool as Absorbing<OrOp>>::absorb(), true);
    assert!(<u64 as LeftAbsorbing<MulOp>>::test_left_absorb(&99));
    assert!(<u64 as RightAbsorbing<MulOp>>::test_right_absorb(&99));
}

#[test]
fn powers() {
    // 3 + 3 + 3 + 3 under addition.
    let mut x = 3u8;
    <u8 as PowAssociative<AddOp>>::pow_p(&mut x, 4);
    assert_eq!(x, 12);
    // 2^5 under multiplication.
    let mut y = 2u8;
    <u8 as PowAssociative<MulOp>>::pow_p(&mut y, 5);
    assert_eq!(y, 32);
    // The zeroth power under pow_z is the identity.
    let mut z = 9u8;
    <u8 as UnitalPowAssociative<MulOp>>::pow_z(&mut z, 0);
    assert_eq!(z, 1);
    let mut w = 9u8;
    <u8 as UnitalPowAssociative<AddOp>>::pow_z(&mut w, 1);
    assert_eq!(w, 9);
}

#[test]
fn xor_group() {
    // Division in the xor quasigroup is xor itself.
    assert_eq!(<bool as LeftQuasigroup<XorOp>>::left_div(&true, &false), true);
    assert!(<bool as LeftQuasigroup<XorOp>>::test_left_div(&true, &false));
    assert!(<bool as RightQuasigroup<XorOp>>::test_right_div(&false, &true));
    assert_eq!(<bool as Quasigroup<XorOp>>::quasi_op(&true, &true), false);
    // Every element of the xor group is its own inverse.
    assert_eq!(<bool as Loop<XorOp>>::left_inv(&true), true);
    assert_eq!(<bool as Loop<XorOp>>::right_inv(&false), false);
    assert_eq!(<bool as Group<XorOp>>::inv(&true), true);
    assert!(<bool as LeftBolLoop<XorOp>>::test_left_bol_loop(&true, &false, &true));
    assert!(<bool as RightBolLoop<XorOp>>::test_right_bol_loop(&false, &true, &true));
}

#[test]
fn negation_is_an_involution() {
    assert_eq!(<bool as Automorphism<NotOp>>::auto_op(&true), false);
    assert_eq!(<bool as Automorphism<NotOp>>::inv(&false), true);
    assert!(<bool as Injective<NotOp>>::test_inv(&true));
    assert!(<bool as Automorphism<NotOp>>::test_auto_inv(&false));
    assert!(<bool as Involution<NotOp>>::test_involution(&true));
}

#[test]
fn naturals_arithmetic() {
    assert_eq!(<u8 as Naturals>::zero(), 0);
    assert_eq!(<u8 as Naturals>::one(), 1);
    assert!(5u8.eq_prim(5));
    assert!(5u8.ne_prim(6));
    assert!(5u8.lt_prim(6));
    assert!(5u8.le_prim(5));
    assert!(5u8.gt_prim(4));
    assert!(5u8.ge_prim(5));
    assert!(4u8.is_even());
    assert!(5u8.is_odd());
    assert_eq!(Naturals::add(&3u8, &4), 7);
    assert_eq!(Naturals::sub(&9u8, &4), 5);
    let mut x = 6u8;
    x.mul_assign(&7);
    assert_eq!(x, 42);
    let mut y = 42u8;
    y.div_assign_prim(5);
    assert_eq!(y, 8);
}

#[test]
fn maybe_ref_owns() {
    assert_eq!(MaybeRef::<u64>::into_owned(10u64), 10);
    assert_eq!(MaybeRef::<u64>::into_owned(Box::new(11u64)), 11);
}

#[test]
fn unary_operations() {
    // Negation undoes itself away from the minimum, where it fails.
    assert_eq!(<i64 as Endomorphism<NegOp>>::op(&5), -5);
    assert_eq!(<i64 as Injective<NegOp>>::partial_inv(&-5), Ok(5));
    assert_eq!(<i64 as UnOp<NegOp>>::un_op(&i64::MIN), Err(()));
    assert!(<i64 as Injective<NegOp>>::test_inv(&17));
    // Integer reciprocals collapse everything above one, and fail at zero.
    assert_eq!(<u64 as Endomorphism<RecOp>>::op(&1), 1);
    assert_eq!(<u64 as Endomorphism<RecOp>>::op(&4), 0);
    assert_eq!(<u64 as UnOp<RecOp>>::un_op(&0), Err(()));
}
