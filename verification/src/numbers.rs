//! Wrappers that attach an intended number system to a carrier type.

use vstd::prelude::*;

verus! {

/// A wrapper for unsigned integers, which states they are to be treated as
/// [natural numbers](https://en.wikipedia.org/wiki/Natural_number): a group
/// under addition and a monoid under multiplication, with the assumption
/// that no overflow occurs. One can't flip the digits of an infinite binary
/// expansion, so the wrapper carries no bitwise negation.
pub struct N<T>(pub T);

/// A wrapper which states its contents are to be treated as
/// [real numbers](https://en.wikipedia.org/wiki/Real_number): equality is
/// understood up to the carrier's rounding, comparison is a total order, and
/// no infinite values are admitted.
pub struct R<T>(pub T);

/// A wrapper which states its contents are to be treated as
/// [projectively extended real numbers](https://en.wikipedia.org/wiki/Projectively_extended_real_line):
/// one value stands for both infinities, which compare as both smaller and
/// larger than every other number except themselves.
pub struct Rp<T>(pub T);

/// A wrapper which states its contents are to be treated as
/// [affinely extended real numbers](https://en.wikipedia.org/wiki/Extended_real_number_line):
/// the two infinities are distinct, and the order is total.
pub struct Ra<T>(pub T);

} // verus!
