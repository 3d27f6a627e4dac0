//! A layered storage abstraction for small numeric aggregates.
//!
//! The crate is organised around a hierarchy of capability traits
//! ([`storage::Storage`], [`storage::StorageMut`], [`storage::OwnedStorage`],
//! [`storage::StackStorage`]) and the concrete buffer types built from them:
//! a single-element leaf ([`storage::Entry`]), fixed composites
//! ([`storage::ArrayStorage`], [`storage::Join`]) and a growable chunked
//! buffer ([`storage::VecStorage`]). Every buffer is modelled by the sequence
//! of its elements, and every operation carries a contract over that model.
//!
//! On top of the buffers sits [`permutation::Permutation`], and alongside them
//! an algebraic trait hierarchy ([`algebra`], [`ops`]) whose laws are stated
//! as proof obligations on the implementing types.

pub mod algebra;
pub mod numbers;
pub mod ops;
pub mod permutation;
pub mod storage;
