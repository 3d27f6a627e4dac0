//! Defines algebraic structures.
//!
//! The hierarchy of traits is as follows: a [`magma::Magma`] is a closed
//! binary operation; [`commutative::Commutative`], [`associative::Associative`],
//! [`unital::Unital`], [`absorbing::Absorbing`] and [`quasigroup::Quasigroup`]
//! each add a law, stated as a proof obligation that every implementation
//! discharges; [`monoid::Monoid`], [`loops::Loop`] and [`group::Group`]
//! combine them.

pub mod absorbing;
pub mod associative;
pub mod commutative;
pub mod group;
pub mod impls;
pub mod involution;
pub mod loops;
pub mod magma;
pub mod monoid;
pub mod naturals;
pub mod quasigroup;
pub mod unital;

use vstd::prelude::*;

verus! {

/// A trait for a value that might either be held directly or boxed, and can
/// be taken as owned either way.
pub trait MaybeRef<T>: Sized {
    /// The value referred to.
    spec fn target(self) -> T;

    /// Takes the value as owned.
    fn into_owned(self) -> (r: T)
        ensures
            r == self.target(),
    ;
}

impl<T> MaybeRef<T> for T {
    open spec fn target(self) -> T {
        self
    }

    fn into_owned(self) -> T {
        self
    }
}

impl<T> MaybeRef<T> for Box<T> {
    open spec fn target(self) -> T {
        *self
    }

    fn into_owned(self) -> T {
        *self
    }
}

} // verus!
