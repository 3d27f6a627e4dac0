//! Tests for the storage layer: construction, decomposition, merging and
//! transmutation of buffers.

use std::cell::Cell;
use std::rc::Rc;

use xmath::storage::{
    build_staged, merge_join, round_trip, transmute_array, transmute_buffer, ArrayStorage,
    ArrayStorageE, ContiguousStorage, ContiguousStorageMut, Entry, Iter, JoinStorage,
    OwnedStorage, Ref, Size, Storage, StorageMut, UninitStackStorage, VecStorage, VecStorageE,
};

#[test]
fn merge() {
    let a = ArrayStorage::<ArrayStorage<Entry<Box<i32>>, 2>, 1>::from_parts(vec![
        ArrayStorage::from_parts(vec![Entry(Box::new(1)), Entry(Box::new(2))]),
    ]);
    let b = ArrayStorage::<Entry<Box<i32>>, 1>::from_parts(vec![Entry(Box::new(3))]);
    let c = ArrayStorage::<Entry<Box<i32>>, 1>::from_parts(vec![Entry(Box::new(4))]);
    let d = transmute_array::<_, 4>(merge_join(merge_join(a, b), c));
    assert_eq!(
        d.into_vec(),
        vec![Box::new(1), Box::new(2), Box::new(3), Box::new(4)]
    );
}

#[test]
fn entry_basics() {
    let e = Entry(42u64);
    assert_eq!(e.len(), 1);
    assert_eq!(e.get(0), Some(&42));
    assert_eq!(e.get(1), None);
    assert_eq!(e.as_slice(), &[42]);
    assert_eq!(e.size().value(), 1);
}

#[test]
fn entry_mutation() {
    let mut e = Entry(1u32);
    *e.get_mut(0) = 5;
    assert_eq!(e.0, 5);
    e.set(0, 9);
    assert_eq!(e.0, 9);
    e.swap(0, 0);
    assert_eq!(e.0, 9);
}

#[test]
fn round_trip_array() {
    let v = vec![5i64, 6, 7];
    let s: ArrayStorageE<i64, 3> = OwnedStorage::from_vec(v.clone());
    assert_eq!(s.len(), 3);
    assert_eq!(s.get(2), Some(&7));
    assert_eq!(s.into_vec(), v);
}

#[test]
fn round_trip_vec_storage() {
    // Chunks of size 2: six elements make three chunks.
    let v = vec![1u8, 2, 3, 4, 5, 6];
    let s: VecStorage<ArrayStorageE<u8, 2>> = OwnedStorage::from_vec(v.clone());
    assert_eq!(s.len(), 6);
    assert_eq!(s.get(4), Some(&5));
    assert_eq!(s.into_vec(), v);
}

#[test]
fn round_trip_staged() {
    let v = vec![9i32, 8, 7, 6];
    let s: ArrayStorageE<i32, 4> = build_staged(v.clone());
    assert_eq!(s.into_vec(), v);
}

#[test]
fn out_of_range_get_fails() {
    let e = Entry(0i32);
    assert!(e.get(1).is_none());

    let s: ArrayStorageE<i32, 2> = OwnedStorage::from_vec(vec![1, 2]);
    assert!(s.get(2).is_none());
    assert!(s.get(usize::MAX).is_none());

    // Zero-length buffers reject every index.
    let z: ArrayStorageE<i32, 0> = OwnedStorage::from_vec(vec![]);
    assert!(z.get(0).is_none());
    let empty = VecStorageE::<i32>::new();
    assert!(empty.get(0).is_none());
}

#[test]
fn staged_initializer_fills_exactly() {
    let mut u: UninitStackStorage<ArrayStorageE<u16, 3>> = UninitStackStorage::new();
    u.push(10);
    u.push(11);
    u.push(12);
    let s = u.init();
    assert_eq!(s.into_vec(), vec![10, 11, 12]);
}

struct DropCounter(Rc<Cell<usize>>);

impl Drop for DropCounter {
    fn drop(&mut self) {
        self.0.set(self.0.get() + 1);
    }
}

#[test]
fn staged_initializer_drops_only_pushed() {
    let count = Rc::new(Cell::new(0usize));
    {
        let mut u: UninitStackStorage<ArrayStorageE<DropCounter, 4>> = UninitStackStorage::new();
        u.push(DropCounter(count.clone()));
        u.push(DropCounter(count.clone()));
        assert_eq!(count.get(), 0);
        // Discarded without init: exactly the two pushed elements are dropped.
    }
    assert_eq!(count.get(), 2);
}

#[test]
fn join_concatenates() {
    let a: ArrayStorageE<i32, 2> = OwnedStorage::from_vec(vec![1, 2]);
    let b: ArrayStorageE<i32, 3> = OwnedStorage::from_vec(vec![3, 4, 5]);
    let j = xmath::storage::Join::new(a, b);
    assert_eq!(j.len(), 5);
    assert_eq!(j.get(0), Some(&1));
    assert_eq!(j.get(1), Some(&2));
    assert_eq!(j.get(2), Some(&3));
    assert_eq!(j.get(4), Some(&5));
    assert_eq!(j.get(5), None);
    assert_eq!(j.into_vec(), vec![1, 2, 3, 4, 5]);
}

#[test]
fn vec_storage_merge() {
    let a: VecStorageE<i32> = OwnedStorage::from_vec(vec![1, 2]);
    let b: VecStorageE<i32> = OwnedStorage::from_vec(vec![3]);
    let m: VecStorageE<i32> = JoinStorage::merge(a, b);
    assert_eq!(m.len(), 3);
    assert_eq!(m.into_vec(), vec![1, 2, 3]);
}

#[test]
fn transmute_between_equal_shapes() {
    // A join of 1 + 2 elements reinterpreted as an array of a single
    // three-element sub-buffer, value- and order-preserving.
    let a: ArrayStorageE<i32, 1> = OwnedStorage::from_vec(vec![10]);
    let b: ArrayStorageE<i32, 2> = OwnedStorage::from_vec(vec![20, 30]);
    let j = merge_join(a, b);
    let t: ArrayStorage<ArrayStorageE<i32, 3>, 1> = transmute_buffer(j);
    assert_eq!(t.into_vec(), vec![10, 20, 30]);
}

#[test]
fn end_to_end_compose() {
    let a: ArrayStorageE<i32, 2> = ArrayStorage::from_parts(vec![Entry(1), Entry(2)]);
    let j = merge_join(a, Entry(3));
    let f = transmute_array::<_, 3>(j);
    let direct: ArrayStorageE<i32, 3> = OwnedStorage::from_vec(vec![1, 2, 3]);
    assert_eq!(f.into_vec(), direct.into_vec());
}

#[test]
fn iterators_are_restartable() {
    let s: ArrayStorageE<u8, 3> = OwnedStorage::from_vec(vec![7, 8, 9]);
    let mut it = s.iter();
    assert_eq!(it.next(), Some(&7));
    assert_eq!(it.next(), Some(&8));
    assert_eq!(it.next(), Some(&9));
    assert_eq!(it.next(), None);
    // A fresh iterator starts over.
    let mut it2 = Iter::new(&s);
    assert_eq!(it2.next(), Some(&7));
}

#[test]
fn ref_forwards() {
    let s: ArrayStorageE<u8, 2> = OwnedStorage::from_vec(vec![3, 4]);
    let r = Ref(&s);
    assert_eq!(r.len(), 2);
    assert_eq!(r.get(1), Some(&4));
    assert_eq!(r.as_slice(), &[3, 4]);
}

#[test]
fn swap_and_set() {
    let mut s: ArrayStorageE<i32, 4> = OwnedStorage::from_vec(vec![1, 2, 3, 4]);
    s.swap(0, 3);
    s.set(1, 9);
    assert_eq!(s.into_vec(), vec![4, 9, 3, 1]);
}

#[test]
fn sizes() {
    let s: ArrayStorageE<i32, 2> = OwnedStorage::from_vec(vec![1, 2]);
    assert_eq!(s.size().value(), 2);
    let d: VecStorageE<i32> = VecStorage::with_capacity(8);
    assert_eq!(d.len(), 0);
    let sz: Size<VecStorageE<i32>> = Size::from_usize(17);
    assert_eq!(sz.value(), 17);
}

#[test]
fn round_trip_generic() {
    let v = vec![4u32, 5, 6, 7];
    assert_eq!(round_trip::<ArrayStorageE<u32, 4>>(v.clone()), v);
    assert_eq!(round_trip::<VecStorage<ArrayStorageE<u32, 2>>>(v.clone()), v);
}

#[test]
fn mutable_slice_writes_through() {
    let mut e = Entry(1i32);
    let s = e.as_mut_slice();
    s[0] = 9;
    assert_eq!(e.0, 9);
    let mut a: ArrayStorageE<i32, 2> = OwnedStorage::from_vec(vec![1, 2]);
    let s = a.as_mut_slice();
    s[1] = 8;
    assert_eq!(a.into_vec(), vec![1, 8]);
}

#[test]
fn vec_storage_from_parts() {
    let parts = vec![
        ArrayStorageE::<i32, 2>::from_parts(vec![Entry(1), Entry(2)]),
        ArrayStorageE::<i32, 2>::from_parts(vec![Entry(3), Entry(4)]),
        ArrayStorageE::<i32, 2>::from_parts(vec![Entry(5), Entry(6)]),
    ];
    let s = VecStorage::from_parts(parts);
    assert_eq!(s.len(), 6);
    assert_eq!(s.into_vec(), vec![1, 2, 3, 4, 5, 6]);
}
