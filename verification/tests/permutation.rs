//! Tests for permutations: construction, validation, composition and parity.

use xmath::permutation::{Parity, Permutation, PermutationD, PermutationS};
use xmath::storage::{OwnedStorage, Size, Storage};

/// Collects the entries of a permutation through its iterator.
fn to_vec<S: Storage<Inner = usize>>(p: &Permutation<S>) -> Vec<usize> {
    let mut out = Vec::new();
    let mut it = p.iter();
    while let Some(v) = it.next() {
        out.push(*v);
    }
    out
}

#[test]
fn compose() {
    let p = PermutationS::<4>::new(OwnedStorage::from_vec(vec![0, 2, 1, 3])).unwrap();
    assert_eq!(p.parity(), Parity::Odd);
    let pp = PermutationS::<4>::compose(&p, &p);
    let id = PermutationS::<4>::identity(Size::from_usize(4));
    assert_eq!(to_vec(&pp), to_vec(&id));
}

#[test]
fn parity_flip() {
    assert_eq!(Parity::Even.flip(), Parity::Odd);
    assert_eq!(Parity::Odd.flip(), Parity::Even);
    let mut p = Parity::Even;
    p.flip_mut();
    assert_eq!(p, Parity::Odd);
}

#[test]
fn new_rejects_bad_entries() {
    // A repeated entry is not a permutation.
    assert!(PermutationD::new(OwnedStorage::from_vec(vec![0, 1, 1])).is_none());
    // An out-of-range entry is not a permutation.
    assert!(PermutationD::new(OwnedStorage::from_vec(vec![0, 3, 1])).is_none());
    // The empty and the valid ones are accepted.
    assert!(PermutationD::new(OwnedStorage::from_vec(vec![])).is_some());
    assert!(PermutationD::new(OwnedStorage::from_vec(vec![2, 0, 1])).is_some());
}

#[test]
fn identity_is_even() {
    let id = PermutationD::identity(Size::from_usize(5));
    assert_eq!(to_vec(&id), vec![0, 1, 2, 3, 4]);
    assert_eq!(id.parity(), Parity::Even);
    assert!(!id.is_empty());
    assert_eq!(id.len(), 5);
    assert_eq!(id.size().value(), 5);
}

#[test]
fn parity_counts_inversions() {
    // [2, 0, 1] has two inversions: even.
    let p = PermutationD::new(OwnedStorage::from_vec(vec![2, 0, 1])).unwrap();
    assert_eq!(p.parity(), Parity::Even);
    // [1, 0] has one inversion: odd.
    let q = PermutationD::new(OwnedStorage::from_vec(vec![1, 0])).unwrap();
    assert_eq!(q.parity(), Parity::Odd);
    // The empty permutation is even.
    let e = PermutationD::new(OwnedStorage::from_vec(vec![])).unwrap();
    assert_eq!(e.parity(), Parity::Even);
}

#[test]
fn swap_entries() {
    let mut p = PermutationD::new(OwnedStorage::from_vec(vec![0, 1, 2])).unwrap();
    p.swap(0, 2);
    assert_eq!(to_vec(&p), vec![2, 1, 0]);
    assert_eq!(p.index(0), 2);
}

#[test]
fn compose_with_identity() {
    let p = PermutationD::new(OwnedStorage::from_vec(vec![1, 2, 0])).unwrap();
    let id = PermutationD::identity(Size::from_usize(3));
    let left = PermutationD::compose(&id, &p);
    let right = PermutationD::compose(&p, &id);
    assert_eq!(to_vec(&left), vec![1, 2, 0]);
    assert_eq!(to_vec(&right), vec![1, 2, 0]);
}

#[test]
fn compose_in_place() {
    let p = PermutationD::new(OwnedStorage::from_vec(vec![0, 2, 1, 3])).unwrap();
    let mut q = PermutationD::new(OwnedStorage::from_vec(vec![3, 2, 1, 0])).unwrap();
    p.compose_mut_rhs(&mut q);
    assert_eq!(to_vec(&q), vec![3, 1, 2, 0]);
}
