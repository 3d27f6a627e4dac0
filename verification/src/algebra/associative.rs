//! Associativity and its weaker relatives: power associativity and the
//! alternative laws.

use vstd::prelude::*;

verus! {

use crate::ops::{BinOp, BinOpMarker};
use crate::algebra::magma::Magma;

/// The `e`-th power of `x` under an operation: `x op x op ... op x`, applied
/// from the left, with `pow_spec(x, 0) == pow_spec(x, 1) == x`.
pub open spec fn pow_spec<Op: BinOpMarker, T: BinOp<Op>>(x: T, e: nat) -> T
    decreases e,
{
    if e <= 1 {
        x
    } else {
        <T as BinOp<Op>>::op_spec(&pow_spec::<Op, T>(x, (e - 1) as nat), &x)
    }
}

/// Whether every product of two powers of `x` with total exponent at most
/// `e` lies in the operation's domain.
pub open spec fn pow_products_ok<Op: BinOpMarker, T: BinOp<Op>>(x: T, e: nat) -> bool {
    forall|m: nat, n: nat|
        1 <= m && 1 <= n && m + n <= e ==> #[trigger] <T as BinOp<Op>>::op_ok(
            &pow_spec::<Op, T>(x, m),
            &pow_spec::<Op, T>(x, n),
        )
}

/// Under a (fully) associative operation, powers of one element combine by
/// adding exponents.
pub proof fn lemma_pow_add<Op: BinOpMarker, T: BinOp<Op>>(x: T, m: nat, n: nat)
    requires
        m >= 1,
        n >= 1,
        forall|a: T, b: T, c: T|
            #[trigger] <T as BinOp<Op>>::op_spec(&<T as BinOp<Op>>::op_spec(&a, &b), &c)
                == <T as BinOp<Op>>::op_spec(&a, &<T as BinOp<Op>>::op_spec(&b, &c)),
    ensures
        <T as BinOp<Op>>::op_spec(&pow_spec::<Op, T>(x, m), &pow_spec::<Op, T>(x, n))
            == pow_spec::<Op, T>(x, m + n),
    decreases n,
{
    let pm = pow_spec::<Op, T>(x, m);
    if n == 1 {
        assert(pow_spec::<Op, T>(x, m + 1) == <T as BinOp<Op>>::op_spec(&pm, &x));
    } else {
        lemma_pow_add::<Op, T>(x, m, (n - 1) as nat);
        let pn1 = pow_spec::<Op, T>(x, (n - 1) as nat);
        assert(pow_spec::<Op, T>(x, n) == <T as BinOp<Op>>::op_spec(&pn1, &x));
        assert(<T as BinOp<Op>>::op_spec(&<T as BinOp<Op>>::op_spec(&pm, &pn1), &x)
            == <T as BinOp<Op>>::op_spec(&pm, &<T as BinOp<Op>>::op_spec(&pn1, &x)));
        assert(pow_spec::<Op, T>(x, m + n) == <T as BinOp<Op>>::op_spec(
            &pow_spec::<Op, T>(x, (m + n - 1) as nat),
            &x,
        ));
    }
}

/// A [power associative](https://en.wikipedia.org/wiki/Power_associativity)
/// magma is one for which repeated application of the operation to a single
/// element is uniquely defined: powers combine by adding exponents.
///
/// The implementor ratifies this by discharging [`PowAssociative::pow_law`].
pub trait PowAssociative<Op: BinOpMarker>: Magma<Op> {
    /// The law: powers of one element combine by adding exponents.
    proof fn pow_law(x: &Self, m: nat, n: nat)
        requires
            m >= 1,
            n >= 1,
        ensures
            <Self as BinOp<Op>>::op_spec(
                &pow_spec::<Op, Self>(*x, m),
                &pow_spec::<Op, Self>(*x, n),
            ) == pow_spec::<Op, Self>(*x, m + n),
    ;

    /// Evaluates `b op b op ... b`, applied `e` times, and assigns it to
    /// `self`, using exponentiation by squares. If `e` is zero or one,
    /// leaves `self` unchanged.
    fn pow_p(&mut self, e: u64) where Self: Copy
        requires
            pow_products_ok::<Op, Self>(*old(self), e as nat),
        ensures
            *final(self) == pow_spec::<Op, Self>(
                *old(self),
                if e <= 1 {
                    1nat
                } else {
                    e as nat
                },
            ),
    {
        if e <= 1 {
            return ;
        }
        let x0 = *self;
        let mut base = x0;
        let mut m: u64 = e - 1;
        let ghost mut s: nat = 1;
        let ghost mut b: nat = 1;
        while m > 0
            invariant
                pow_products_ok::<Op, Self>(x0, e as nat),
                1 <= s,
                1 <= b,
                s + b * m == e,
                *self == pow_spec::<Op, Self>(x0, s),
                base == pow_spec::<Op, Self>(x0, b),
            decreases m,
        {
            let ghost m_old: nat = m as nat;
            let ghost s_entry: nat = s;
            if m % 2 == 1 {
                proof {
                    assert(s + b <= e) by (nonlinear_arith)
                        requires
                            s + b * m == e,
                            m >= 1,
                            b >= 1,
                    ;
                    Self::pow_law(&x0, s, b);
                }
                <Self as Magma<Op>>::op_assign_lhs(self, &base);
                proof {
                    s = s + b;
                }
            }
            m = m / 2;
            proof {
                // Whether the low bit was folded in or not, the remaining
                // multiplier halves against a doubled base.
                if m_old % 2 == 1 {
                    assert(s + (b + b) * (m as nat) == e) by (nonlinear_arith)
                        requires
                            m as nat == m_old / 2,
                            m_old % 2 == 1,
                            s == s_entry + b,
                            s_entry + b * m_old == e,
                    ;
                } else {
                    assert(s + (b + b) * (m as nat) == e) by (nonlinear_arith)
                        requires
                            m as nat == m_old / 2,
                            m_old % 2 == 0,
                            s == s_entry,
                            s_entry + b * m_old == e,
                    ;
                }
            }
            if m > 0 {
                proof {
                    assert(b + b <= e) by (nonlinear_arith)
                        requires
                            s + (b + b) * (m as nat) == e,
                            m >= 1,
                            s >= 1,
                            b >= 1,
                    ;
                    Self::pow_law(&x0, b, b);
                }
                let base2 = <Self as Magma<Op>>::op(&base, &base);
                base = base2;
                proof {
                    b = b + b;
                }
            } else {
                proof {
                    assert(s == e && s + b * (m as nat) == e) by (nonlinear_arith)
                        requires
                            s + (b + b) * (m as nat) == e,
                            m as nat == 0,
                    ;
                }
            }
        }
    }
}

/// A [`Magma`] is left alternative whenever `(a op a) op b = a op (a op b)`
/// for all `a, b`.
pub trait LeftAlternative<Op: BinOpMarker>: Magma<Op> {
    /// The law of left alternativity.
    proof fn left_alt_law(a: &Self, b: &Self)
        ensures
            <Self as BinOp<Op>>::op_spec(&<Self as BinOp<Op>>::op_spec(a, a), b)
                == <Self as BinOp<Op>>::op_spec(a, &<Self as BinOp<Op>>::op_spec(a, b)),
    ;

    /// Tests whether `(a op a) op b = a op (a op b)` for a given pair of
    /// entries. By the law, the test always passes.
    fn test_left_altern(&self, rhs: &Self) -> (r: bool)
        requires
            <Self as BinOp<Op>>::op_ok(self, self),
            <Self as BinOp<Op>>::op_ok(&<Self as BinOp<Op>>::op_spec(self, self), rhs),
            <Self as BinOp<Op>>::op_ok(self, rhs),
            <Self as BinOp<Op>>::op_ok(self, &<Self as BinOp<Op>>::op_spec(self, rhs)),
        ensures
            r,
    {
        proof {
            Self::left_alt_law(self, rhs);
        }
        let aa = <Self as Magma<Op>>::op(self, self);
        let lhs = <Self as Magma<Op>>::op(&aa, rhs);
        let ab = <Self as Magma<Op>>::op(self, rhs);
        let rhs2 = <Self as Magma<Op>>::op(self, &ab);
        lhs.eq_val(&rhs2)
    }
}

/// A [`Magma`] is right alternative whenever `(a op b) op b = a op (b op b)`
/// for all `a, b`.
pub trait RightAlternative<Op: BinOpMarker>: Magma<Op> {
    /// The law of right alternativity.
    proof fn right_alt_law(a: &Self, b: &Self)
        ensures
            <Self as BinOp<Op>>::op_spec(&<Self as BinOp<Op>>::op_spec(a, b), b)
                == <Self as BinOp<Op>>::op_spec(a, &<Self as BinOp<Op>>::op_spec(b, b)),
    ;

    /// Tests whether `(a op b) op b = a op (b op b)` for a given pair of
    /// entries. By the law, the test always passes.
    fn test_right_altern(&self, rhs: &Self) -> (r: bool)
        requires
            <Self as BinOp<Op>>::op_ok(self, rhs),
            <Self as BinOp<Op>>::op_ok(&<Self as BinOp<Op>>::op_spec(self, rhs), rhs),
            <Self as BinOp<Op>>::op_ok(rhs, rhs),
            <Self as BinOp<Op>>::op_ok(self, &<Self as BinOp<Op>>::op_spec(rhs, rhs)),
        ensures
            r,
    {
        proof {
            Self::right_alt_law(self, rhs);
        }
        let ab = <Self as Magma<Op>>::op(self, rhs);
        let lhs = <Self as Magma<Op>>::op(&ab, rhs);
        let bb = <Self as Magma<Op>>::op(rhs, rhs);
        let rhs2 = <Self as Magma<Op>>::op(self, &bb);
        lhs.eq_val(&rhs2)
    }
}

/// A [`Magma`] is alternative whenever it's both [`LeftAlternative`] and
/// [`RightAlternative`].
///
/// **Note:** [`Alternative`] doesn't imply [`PowAssociative`].
pub trait Alternative<Op: BinOpMarker>: LeftAlternative<Op> + RightAlternative<Op> {
}

impl<Op: BinOpMarker, T: LeftAlternative<Op> + RightAlternative<Op>> Alternative<Op> for T {
}

/// A [`Magma`] is [associative](https://en.wikipedia.org/wiki/Associative_property)
/// whenever `(a op b) op c = a op (b op c)` for all `a, b, c`.
pub trait Associative<Op: BinOpMarker>: PowAssociative<Op> + Alternative<Op> {
    /// The law of associativity.
    proof fn assoc_law(a: &Self, b: &Self, c: &Self)
        ensures
            <Self as BinOp<Op>>::op_spec(&<Self as BinOp<Op>>::op_spec(a, b), c)
                == <Self as BinOp<Op>>::op_spec(a, &<Self as BinOp<Op>>::op_spec(b, c)),
    ;

    /// Tests whether `(a op b) op c = a op (b op c)` for a given set of
    /// entries. By the associativity law, the test always passes.
    fn test_assoc(a: &Self, b: &Self, c: &Self) -> (r: bool)
        requires
            <Self as BinOp<Op>>::op_ok(a, b),
            <Self as BinOp<Op>>::op_ok(&<Self as BinOp<Op>>::op_spec(a, b), c),
            <Self as BinOp<Op>>::op_ok(b, c),
            <Self as BinOp<Op>>::op_ok(a, &<Self as BinOp<Op>>::op_spec(b, c)),
        ensures
            r,
    {
        proof {
            Self::assoc_law(a, b, c);
        }
        let ab = <Self as Magma<Op>>::op(a, b);
        let lhs = <Self as Magma<Op>>::op(&ab, c);
        let bc = <Self as Magma<Op>>::op(b, c);
        let rhs = <Self as Magma<Op>>::op(a, &bc);
        lhs.eq_val(&rhs)
    }
}

} // verus!
