//! Implements the storage traits and declares the various types related to
//! them.
//!
//! Every concrete buffer here is, up to its model, a flat sequence of
//! elements: the composites ([`ArrayStorage`], [`Join`]) and the growable
//! buffer ([`VecStorage`]) hold their elements in one contiguous block, and
//! the sub-buffer structure survives as a logical grouping in their
//! well-formedness conditions. This is what makes the layout operations
//! (merge, transmute) plain moves of the underlying block.

use vstd::prelude::*;

verus! {

use core::marker::PhantomData;
use vstd::pervasive::unreached;
use crate::storage::{ContiguousStorage, ContiguousStorageMut, OwnedStorage, StackStorage,
    Storage, StorageMut};

broadcast use crate::storage::lemma_singleton_update;

/// The static size of a storage repeated `n` times.
pub open spec fn times(size: Option<nat>, n: nat) -> Option<nat> {
    match size {
        Some(u) => Some(u * n),
        None => None,
    }
}

/// The static size of two storages laid side by side.
pub open spec fn add(a: Option<nat>, b: Option<nat>) -> Option<nat> {
    match (a, b) {
        (Some(u), Some(v)) => Some(u + v),
        _ => None,
    }
}

/// Swaps the values at two indices of a vector.
fn vec_swap<T>(v: &mut Vec<T>, i: usize, j: usize)
    requires
        i < old(v)@.len(),
        j < old(v)@.len(),
    ensures
        final(v)@ == old(v)@.update(i as int, old(v)@[j as int]).update(
            j as int,
            old(v)@[i as int],
        ),
{
    if i == j {
        proof {
            assert(old(v)@.update(i as int, old(v)@[j as int]).update(j as int, old(v)@[i as int])
                =~= old(v)@);
        }
        return ;
    }
    let (lo, hi) = if i < j {
        (i, j)
    } else {
        (j, i)
    };
    let mut x = v.remove(hi);
    v.set_and_swap(lo, &mut x);
    v.insert(hi, x);
    proof {
        assert(final(v)@ =~= old(v)@.update(i as int, old(v)@[j as int]).update(
            j as int,
            old(v)@[i as int],
        ));
    }
}

/// A convenience wrapper around the size of some storage.
///
/// By creating this value, you're asserting that you're able to create a
/// storage of this size: for a storage with a statically known size the value
/// must be exactly that size.
pub struct Size<S> {
    /// The numeric value for the size.
    value: usize,
    /// Phantom data.
    _phantom: PhantomData<S>,
}

impl<S> Size<S> {
    /// The numeric value of the size.
    pub closed spec fn value_spec(&self) -> usize {
        self.value
    }

    /// Returns the numeric value of the size.
    pub fn value(self) -> (r: usize)
        ensures
            r == self.value_spec(),
    {
        self.value
    }
}

impl<S: Storage> Size<S> {
    /// Creates a size from a given numeric value. The value must be
    /// compatible with the storage: equal to its static size, if it has one.
    pub fn from_usize(value: usize) -> (r: Self)
        requires
            S::static_size() matches Some(n) ==> n == value,
        ensures
            r.value_spec() == value,
    {
        Self { value, _phantom: PhantomData }
    }
}

/// An iterator over the entries of a storage. It is re-derived from indices
/// each time it is created, so iteration is restartable.
pub struct Iter<'a, S> {
    /// The storage.
    pub storage: &'a S,
    /// The index we're currently visiting.
    pub index: usize,
}

impl<'a, S> Iter<'a, S> {
    /// Starts an iterator at the first entry of a storage.
    pub fn new(storage: &'a S) -> (r: Self)
        ensures
            r.storage == storage,
            r.index == 0,
    {
        Self { storage, index: 0 }
    }
}

impl<'a, S: Storage> Iter<'a, S> {
    /// Returns the entry the iterator is at, and advances it. Yields `None`,
    /// and stays put, once the storage is exhausted.
    pub fn next(&mut self) -> (r: Option<&'a <S as Storage>::Inner>)
        requires
            old(self).storage.wf(),
        ensures
            final(self).storage == old(self).storage,
            old(self).index < old(self).storage.contents().len() ==> r is Some
                && final(self).index == old(self).index + 1,
            r matches Some(v) ==> *v == old(self).storage.contents()[old(self).index as int],
            old(self).index >= old(self).storage.contents().len() ==> r is None
                && final(self).index == old(self).index,
    {
        let n = self.storage.len();
        if self.index < n {
            let r = self.storage.get(self.index);
            self.index = self.index + 1;
            r
        } else {
            None
        }
    }
}

/// Relies on `core::slice::from_ref`: a slice of length one whose only
/// element is the referenced value.
#[verifier::external_body]
fn slice_from_ref<T>(x: &T) -> (s: &[T])
    ensures
        s@ == seq![*x],
{
    core::slice::from_ref(x)
}

/// Relies on `core::slice::from_mut`: a slice of length one around the
/// referenced value; a write to its element is a write to the value, and a
/// slice cannot change its length.
#[verifier::external_body]
fn slice_from_mut<T>(x: &mut T) -> (s: &mut [T])
    ensures
        s@ == seq![*old(x)],
        final(s)@ == seq![*final(x)],
{
    core::slice::from_mut(x)
}

/// A storage containing a single value. This is the building block for any
/// other storage.
///
/// The reason this exists is that otherwise, storages wouldn't have an
/// unambiguous base type.
#[derive(Clone, Copy, Debug, PartialEq, Eq)]
pub struct Entry<T>(pub T);

impl<T> core::convert::From<T> for Entry<T> {
    fn from(t: T) -> Self {
        Entry(t)
    }
}

impl<T> vstd::std_specs::convert::FromSpecImpl<T> for Entry<T> {
    open spec fn obeys_from_spec() -> bool {
        true
    }

    open spec fn from_spec(t: T) -> Self {
        Entry(t)
    }
}

impl<T> Storage for Entry<T> {
    type Inner = T;

    open spec fn contents(&self) -> Seq<T> {
        seq![self.0]
    }

    open spec fn wf(&self) -> bool {
        true
    }

    open spec fn static_size() -> Option<nat> {
        Some(1)
    }

    proof fn static_size_law(&self) {
    }

    fn get(&self, index: usize) -> (r: Option<&T>) {
        if index == 0 {
            Some(&self.0)
        } else {
            None
        }
    }

    fn len(&self) -> usize {
        1
    }

    fn size(&self) -> (s: Size<Self>) {
        Size { value: self.len(), _phantom: PhantomData }
    }

    fn iter<'a>(&'a self) -> (it: Iter<'a, Self>) {
        Iter::new(self)
    }
}

impl<T> StorageMut for Entry<T> {
    fn get_mut(&mut self, index: usize) -> (r: &mut T) {
        &mut self.0
    }

    fn swap(&mut self, i: usize, j: usize) {
    }
}

impl<T> ContiguousStorage for Entry<T> {
    fn as_slice(&self) -> (s: &[T]) {
        slice_from_ref(&self.0)
    }
}

impl<T> ContiguousStorageMut for Entry<T> {
    fn as_mut_slice(&mut self) -> (s: &mut [T]) {
        slice_from_mut(&mut self.0)
    }
}

impl<T> OwnedStorage for Entry<T> {
    open spec fn can_build_len(n: nat) -> bool {
        n == 1
    }

    fn from_vec(v: Vec<T>) -> (r: Self) {
        let ghost orig = v@;
        let mut v = v;
        match v.pop() {
            Some(x) => {
                proof {
                    assert(seq![x] =~= orig);
                }
                Entry(x)
            },
            None => unreached(),
        }
    }

    fn into_vec(self) -> (v: Vec<T>) {
        let mut v = Vec::new();
        v.push(self.0);
        v
    }
}

impl<T> StackStorage for Entry<T> {
    open spec fn size_spec() -> nat {
        1
    }

    proof fn stack_law() {
    }

    fn from_flat(v: Vec<T>) -> (r: Self) {
        let ghost orig = v@;
        let mut v = v;
        match v.pop() {
            Some(x) => {
                proof {
                    assert(seq![x] =~= orig);
                }
                Entry(x)
            },
            None => unreached(),
        }
    }
}

/// Stores a reference to a storage. This will also be a storage, adding no
/// state of its own and narrowing the capabilities to read-only access.
pub struct Ref<'a, S: Storage>(pub &'a S);

impl<'a, S: Storage> Storage for Ref<'a, S> {
    type Inner = <S as Storage>::Inner;

    open spec fn contents(&self) -> Seq<<S as Storage>::Inner> {
        self.0.contents()
    }

    open spec fn wf(&self) -> bool {
        self.0.wf()
    }

    open spec fn static_size() -> Option<nat> {
        S::static_size()
    }

    proof fn static_size_law(&self) {
        self.0.static_size_law();
    }

    fn get(&self, index: usize) -> (r: Option<&<S as Storage>::Inner>) {
        self.0.get(index)
    }

    fn len(&self) -> usize {
        self.0.len()
    }

    fn size(&self) -> (s: Size<Self>) {
        Size { value: self.len(), _phantom: PhantomData }
    }

    fn iter<'b>(&'b self) -> (it: Iter<'b, Self>) {
        Iter::new(self)
    }
}

impl<'a, S: ContiguousStorage> ContiguousStorage for Ref<'a, S> {
    fn as_slice(&self) -> (s: &[<S as Storage>::Inner]) {
        self.0.as_slice()
    }
}

/// An array of a single storage type: `N` consecutive sub-buffers, stored as
/// one flat block of `N * S::size_spec()` elements, in row-major order.
pub struct ArrayStorage<S: StackStorage, const N: usize> {
    /// The elements of the sub-buffers, flattened.
    data: Vec<<S as Storage>::Inner>,
}

/// An array storage whose entries are of a given type.
pub type ArrayStorageE<T, const N: usize> = ArrayStorage<Entry<T>, N>;

/// The concatenated contents of a sequence of storages, in order.
pub open spec fn cat_contents<S: Storage>(parts: Seq<S>) -> Seq<<S as Storage>::Inner>
    decreases parts.len(),
{
    if parts.len() == 0 {
        Seq::empty()
    } else {
        cat_contents(parts.drop_last()) + parts.last().contents()
    }
}

impl<S: StackStorage, const N: usize> ArrayStorage<S, N> {
    /// Builds the array from its `N` sub-buffers, in order. The elements move
    /// into one flat block.
    pub fn from_parts(parts: Vec<S>) -> (r: Self)
        requires
            parts@.len() == N,
            forall|k: int| 0 <= k < parts@.len() ==> (#[trigger] parts@[k]).wf(),
        ensures
            r.wf(),
            r.contents() == cat_contents(parts@),
    {
        let ghost orig = parts@;
        let mut parts = parts;
        let mut data: Vec<<S as Storage>::Inner> = Vec::new();
        let ghost mut k: int = 0;
        while parts.len() > 0
            invariant
                0 <= k <= orig.len(),
                orig.len() == N,
                parts@ == orig.subrange(k, orig.len() as int),
                data@ == cat_contents(orig.subrange(0, k)),
                data@.len() == S::size_spec() * k,
                forall|m: int| 0 <= m < orig.len() ==> (#[trigger] orig[m]).wf(),
            decreases parts@.len(),
        {
            let p = parts.remove(0);
            proof {
                assert(p == orig[k]);
                p.static_size_law();
                S::stack_law();
            }
            let mut pv = p.into_vec();
            data.append(&mut pv);
            proof {
                assert(orig.subrange(0, k + 1).drop_last() =~= orig.subrange(0, k));
                assert(orig.subrange(0, k + 1).last() == orig[k]);
                assert(parts@ =~= orig.subrange(k + 1, orig.len() as int));
                k = k + 1;
                assert(data@.len() == S::size_spec() * k) by (nonlinear_arith)
                    requires
                        data@.len() == S::size_spec() * (k - 1) + S::size_spec(),
                ;
            }
        }
        proof {
            assert(orig.subrange(0, N as int) =~= orig);
        }
        ArrayStorage { data }
    }
}

impl<S: StackStorage, const N: usize> Storage for ArrayStorage<S, N> {
    type Inner = <S as Storage>::Inner;

    closed spec fn contents(&self) -> Seq<<S as Storage>::Inner> {
        self.data@
    }

    closed spec fn wf(&self) -> bool {
        self.data@.len() == S::size_spec() * N as nat
    }

    open spec fn static_size() -> Option<nat> {
        crate::storage::impls::times(S::static_size(), N as nat)
    }

    proof fn static_size_law(&self) {
        S::stack_law();
    }

    fn get(&self, index: usize) -> (r: Option<&<S as Storage>::Inner>) {
        if index < self.data.len() {
            Some(&self.data[index])
        } else {
            None
        }
    }

    fn len(&self) -> usize {
        self.data.len()
    }

    fn size(&self) -> (s: Size<Self>) {
        Size { value: self.len(), _phantom: PhantomData }
    }

    fn iter<'a>(&'a self) -> (it: Iter<'a, Self>) {
        Iter::new(self)
    }
}

impl<S: StackStorage, const N: usize> StorageMut for ArrayStorage<S, N> {
    fn get_mut(&mut self, index: usize) -> (r: &mut <S as Storage>::Inner) {
        &mut self.data[index]
    }

    fn swap(&mut self, i: usize, j: usize) {
        vec_swap(&mut self.data, i, j);
    }
}

impl<S: StackStorage, const N: usize> ContiguousStorage for ArrayStorage<S, N> {
    fn as_slice(&self) -> (s: &[<S as Storage>::Inner]) {
        self.data.as_slice()
    }
}

impl<S: StackStorage, const N: usize> ContiguousStorageMut for ArrayStorage<S, N> {
    fn as_mut_slice(&mut self) -> (s: &mut [<S as Storage>::Inner]) {
        self.data.as_mut_slice()
    }
}

impl<S: StackStorage, const N: usize> OwnedStorage for ArrayStorage<S, N> {
    open spec fn can_build_len(n: nat) -> bool {
        n == S::size_spec() * N as nat
    }

    fn from_vec(v: Vec<<S as Storage>::Inner>) -> (r: Self) {
        ArrayStorage { data: v }
    }

    fn into_vec(self) -> (v: Vec<<S as Storage>::Inner>) {
        self.data
    }
}

impl<S: StackStorage, const N: usize> StackStorage for ArrayStorage<S, N> {
    open spec fn size_spec() -> nat {
        S::size_spec() * N as nat
    }

    proof fn stack_law() {
        S::stack_law();
    }

    fn from_flat(v: Vec<<S as Storage>::Inner>) -> (r: Self) {
        ArrayStorage { data: v }
    }
}

/// An auxiliary struct that joins two buffers together: exactly two adjacent
/// sub-buffers, `A` followed by `B`, stored as one flat block of
/// `A::size_spec() + B::size_spec()` elements.
pub struct Join<A: StackStorage, B: StackStorage<Inner = <A as Storage>::Inner>> {
    /// The elements of the two sub-buffers, in order.
    data: Vec<<A as Storage>::Inner>,
    /// Phantom data for the second sub-buffer type.
    _phantom: PhantomData<B>,
}

impl<A: StackStorage, B: StackStorage<Inner = <A as Storage>::Inner>> Join<A, B> {
    /// Initializes a new joined buffer: `a`'s elements followed by `b`'s.
    pub fn new(a: A, b: B) -> (r: Self)
        requires
            a.wf(),
            b.wf(),
        ensures
            r.wf(),
            r.contents() == a.contents() + b.contents(),
    {
        proof {
            a.static_size_law();
            b.static_size_law();
            A::stack_law();
            B::stack_law();
        }
        let mut data = a.into_vec();
        let mut db = b.into_vec();
        data.append(&mut db);
        Join { data, _phantom: PhantomData }
    }
}

impl<A: StackStorage, B: StackStorage<Inner = <A as Storage>::Inner>> Storage for Join<A, B> {
    type Inner = <A as Storage>::Inner;

    closed spec fn contents(&self) -> Seq<<A as Storage>::Inner> {
        self.data@
    }

    closed spec fn wf(&self) -> bool {
        self.data@.len() == A::size_spec() + B::size_spec()
    }

    open spec fn static_size() -> Option<nat> {
        crate::storage::impls::add(A::static_size(), B::static_size())
    }

    proof fn static_size_law(&self) {
        A::stack_law();
        B::stack_law();
    }

    fn get(&self, index: usize) -> (r: Option<&<A as Storage>::Inner>) {
        if index < self.data.len() {
            Some(&self.data[index])
        } else {
            None
        }
    }

    fn len(&self) -> usize {
        self.data.len()
    }

    fn size(&self) -> (s: Size<Self>) {
        Size { value: self.len(), _phantom: PhantomData }
    }

    fn iter<'a>(&'a self) -> (it: Iter<'a, Self>) {
        Iter::new(self)
    }
}

impl<A: StackStorage, B: StackStorage<Inner = <A as Storage>::Inner>> StorageMut for Join<A, B> {
    fn get_mut(&mut self, index: usize) -> (r: &mut <A as Storage>::Inner) {
        &mut self.data[index]
    }

    fn swap(&mut self, i: usize, j: usize) {
        vec_swap(&mut self.data, i, j);
    }
}

impl<A: StackStorage, B: StackStorage<Inner = <A as Storage>::Inner>> ContiguousStorage for Join<
    A,
    B,
> {
    fn as_slice(&self) -> (s: &[<A as Storage>::Inner]) {
        self.data.as_slice()
    }
}

impl<A: StackStorage, B: StackStorage<Inner = <A as Storage>::Inner>> ContiguousStorageMut for Join<
    A,
    B,
> {
    fn as_mut_slice(&mut self) -> (s: &mut [<A as Storage>::Inner]) {
        self.data.as_mut_slice()
    }
}

impl<A: StackStorage, B: StackStorage<Inner = <A as Storage>::Inner>> OwnedStorage for Join<A, B> {
    open spec fn can_build_len(n: nat) -> bool {
        n == A::size_spec() + B::size_spec()
    }

    fn from_vec(v: Vec<<A as Storage>::Inner>) -> (r: Self) {
        Join { data: v, _phantom: PhantomData }
    }

    fn into_vec(self) -> (v: Vec<<A as Storage>::Inner>) {
        self.data
    }
}

impl<A: StackStorage, B: StackStorage<Inner = <A as Storage>::Inner>> StackStorage for Join<A, B> {
    open spec fn size_spec() -> nat {
        A::size_spec() + B::size_spec()
    }

    proof fn stack_law() {
        A::stack_law();
        B::stack_law();
    }

    fn from_flat(v: Vec<<A as Storage>::Inner>) -> (r: Self) {
        Join { data: v, _phantom: PhantomData }
    }
}

/// A heap-allocated growable storage: a sequence of chunks of the fixed-size
/// type `S`, stored as one flat block whose length is a multiple of
/// `S::size_spec()`.
pub struct VecStorage<S: StackStorage> {
    /// The elements of the chunks, flattened.
    data: Vec<<S as Storage>::Inner>,
}

/// A vec storage whose entries are of a given type.
pub type VecStorageE<T> = VecStorage<Entry<T>>;

impl<S: StackStorage> Default for VecStorage<S> {
    /// Builds an empty growable storage.
    fn default() -> (r: Self)
        ensures
            r.wf(),
            r.contents() == Seq::<<S as Storage>::Inner>::empty(),
    {
        Self::new()
    }
}

impl<S: StackStorage> VecStorage<S> {
    /// Builds the storage from a sequence of whole chunks, in order. The
    /// chunks' elements move into one flat block.
    pub fn from_parts(parts: Vec<S>) -> (r: Self)
        requires
            forall|k: int| 0 <= k < parts@.len() ==> (#[trigger] parts@[k]).wf(),
        ensures
            r.wf(),
            r.contents() == cat_contents(parts@),
    {
        let ghost orig = parts@;
        let mut parts = parts;
        let mut data: Vec<<S as Storage>::Inner> = Vec::new();
        let ghost mut k: int = 0;
        while parts.len() > 0
            invariant
                0 <= k <= orig.len(),
                parts@ == orig.subrange(k, orig.len() as int),
                data@ == cat_contents(orig.subrange(0, k)),
                data@.len() == S::size_spec() * k,
                forall|m: int| 0 <= m < orig.len() ==> (#[trigger] orig[m]).wf(),
            decreases parts@.len(),
        {
            let p = parts.remove(0);
            proof {
                assert(p == orig[k]);
                p.static_size_law();
                S::stack_law();
            }
            let mut pv = p.into_vec();
            data.append(&mut pv);
            proof {
                assert(orig.subrange(0, k + 1).drop_last() =~= orig.subrange(0, k));
                assert(orig.subrange(0, k + 1).last() == orig[k]);
                assert(parts@ =~= orig.subrange(k + 1, orig.len() as int));
                k = k + 1;
                assert(data@.len() == S::size_spec() * k) by (nonlinear_arith)
                    requires
                        data@.len() == S::size_spec() * (k - 1) + S::size_spec(),
                ;
            }
        }
        proof {
            assert(orig.subrange(0, orig.len() as int) =~= orig);
            let sz = S::size_spec();
            let n = data@.len();
            assert(sz != 0 ==> n % sz == 0) by (nonlinear_arith)
                requires
                    n == sz * k,
                    k >= 0,
            ;
            assert(sz == 0 ==> n == 0) by (nonlinear_arith)
                requires
                    n == sz * k,
            ;
        }
        VecStorage { data }
    }

    /// Builds an empty growable storage.
    pub fn new() -> (r: Self)
        ensures
            r.wf(),
            r.contents() == Seq::<<S as Storage>::Inner>::empty(),
    {
        proof {
            let n = S::size_spec();
            assert(n != 0 ==> 0nat % n == 0) by (nonlinear_arith);
        }
        VecStorage { data: Vec::new() }
    }

    /// Builds an empty growable storage with room reserved for `capacity`
    /// chunks' worth of elements.
    pub fn with_capacity(capacity: usize) -> (r: Self)
        ensures
            r.wf(),
            r.contents() == Seq::<<S as Storage>::Inner>::empty(),
    {
        proof {
            let n = S::size_spec();
            assert(n != 0 ==> 0nat % n == 0) by (nonlinear_arith);
        }
        VecStorage { data: Vec::with_capacity(capacity) }
    }
}

impl<S: StackStorage> Storage for VecStorage<S> {
    type Inner = <S as Storage>::Inner;

    closed spec fn contents(&self) -> Seq<<S as Storage>::Inner> {
        self.data@
    }

    closed spec fn wf(&self) -> bool {
        if S::size_spec() == 0 {
            self.data@.len() == 0
        } else {
            self.data@.len() % S::size_spec() == 0
        }
    }

    open spec fn static_size() -> Option<nat> {
        None
    }

    proof fn static_size_law(&self) {
    }

    fn get(&self, index: usize) -> (r: Option<&<S as Storage>::Inner>) {
        if index < self.data.len() {
            Some(&self.data[index])
        } else {
            None
        }
    }

    fn len(&self) -> usize {
        self.data.len()
    }

    fn size(&self) -> (s: Size<Self>) {
        Size { value: self.len(), _phantom: PhantomData }
    }

    fn iter<'a>(&'a self) -> (it: Iter<'a, Self>) {
        Iter::new(self)
    }
}

impl<S: StackStorage> StorageMut for VecStorage<S> {
    fn get_mut(&mut self, index: usize) -> (r: &mut <S as Storage>::Inner) {
        &mut self.data[index]
    }

    fn swap(&mut self, i: usize, j: usize) {
        vec_swap(&mut self.data, i, j);
    }
}

impl<S: StackStorage> ContiguousStorage for VecStorage<S> {
    fn as_slice(&self) -> (s: &[<S as Storage>::Inner]) {
        self.data.as_slice()
    }
}

impl<S: StackStorage> ContiguousStorageMut for VecStorage<S> {
    fn as_mut_slice(&mut self) -> (s: &mut [<S as Storage>::Inner]) {
        self.data.as_mut_slice()
    }
}

impl<S: StackStorage> OwnedStorage for VecStorage<S> {
    /// A growable storage accepts exactly the whole numbers of chunks. A
    /// zero-sized chunk type can only ever produce the empty storage, so only
    /// the empty sequence is accepted for it.
    open spec fn can_build_len(n: nat) -> bool {
        if S::size_spec() == 0 {
            n == 0
        } else {
            n % S::size_spec() == 0
        }
    }

    fn from_vec(v: Vec<<S as Storage>::Inner>) -> (r: Self) {
        VecStorage { data: v }
    }

    fn into_vec(self) -> (v: Vec<<S as Storage>::Inner>) {
        self.data
    }
}

/// A trait that specifies that a storage may be created by concatenating
/// together two other buffers.
pub trait JoinStorage<A: Storage, B: Storage>: Storage {
    /// Whether two buffers can be merged into this storage.
    spec fn merge_ok(a: &A, b: &B) -> bool;

    /// The model of the merged buffer. Every implementation defines it as
    /// `a`'s elements followed by `b`'s.
    spec fn merged_contents(a: &A, b: &B) -> Seq<<Self as Storage>::Inner>;

    /// Merges two buffers together: the result holds `a`'s elements followed
    /// by `b`'s.
    fn merge(a: A, b: B) -> (r: Self)
        requires
            a.wf(),
            b.wf(),
            Self::merge_ok(&a, &b),
        ensures
            r.wf(),
            r.contents() == Self::merged_contents(&a, &b),
    ;
}

/// Any two stack buffers may be merged into a `Join`.
impl<A: StackStorage, B: StackStorage<Inner = <A as Storage>::Inner>> JoinStorage<A, B> for Join<
    A,
    B,
> {
    open spec fn merge_ok(a: &A, b: &B) -> bool {
        true
    }

    open spec fn merged_contents(a: &A, b: &B) -> Seq<<A as Storage>::Inner> {
        a.contents() + b.contents()
    }

    fn merge(a: A, b: B) -> (r: Self) {
        Self::new(a, b)
    }
}

/// Two owned buffers may be joined into a `VecStorage`, as long as their
/// total length is a whole number of chunks.
impl<
    T: StackStorage,
    A: OwnedStorage<Inner = <T as Storage>::Inner>,
    B: OwnedStorage<Inner = <T as Storage>::Inner>,
> JoinStorage<A, B> for VecStorage<T> {
    open spec fn merge_ok(a: &A, b: &B) -> bool {
        <Self as OwnedStorage>::can_build_len(a.contents().len() + b.contents().len())
    }

    open spec fn merged_contents(a: &A, b: &B) -> Seq<<T as Storage>::Inner> {
        a.contents() + b.contents()
    }

    fn merge(a: A, b: B) -> (r: Self) {
        let mut data = a.into_vec();
        let mut db = b.into_vec();
        data.append(&mut db);
        VecStorage { data }
    }
}

} // verus!
