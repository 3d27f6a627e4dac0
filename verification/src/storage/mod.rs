//! Declares the different storage types and traits.
//!
//! Every buffer is modelled by [`Storage::contents`], the mathematical
//! sequence of its elements. A buffer with a statically known size reports
//! that exact length at run time: the size is an upward contract, not an
//! optimization hint, and [`Storage::static_size_law`] is the proof obligation
//! that enforces it.

pub mod impls;

pub use impls::{ArrayStorage, ArrayStorageE, Entry, Iter, Join, JoinStorage, Ref, Size,
    VecStorage, VecStorageE};

use vstd::prelude::*;

verus! {

/// Rewrites an update of a singleton sequence to a singleton sequence, so that
/// the update-shaped contracts of [`StorageMut`] close over [`Entry`] values.
pub broadcast proof fn lemma_singleton_update<T>(x: T, y: T)
    ensures
        #[trigger] seq![x].update(0, y) == seq![y],
{
    assert(seq![x].update(0, y) =~= seq![y]);
}

/// The law of merging: a merge of a buffer holding `a` (size `m`) with one
/// holding `b` (size `n`) — [`impls::JoinStorage::merge`], [`merge_join`] or
/// [`impls::Join::new`], whose contracts all give the concatenation — has size
/// `m + n`, and its element at index `i` is `a`'s element at `i` for `i < m`
/// and `b`'s element at `i - m` otherwise.
pub proof fn lemma_merge_contents<T>(a: Seq<T>, b: Seq<T>)
    ensures
        (a + b).len() == a.len() + b.len(),
        forall|i: int| 0 <= i < a.len() ==> #[trigger] (a + b)[i] == a[i],
        forall|i: int|
            a.len() <= i < a.len() + b.len() ==> #[trigger] (a + b)[i] == b[i - a.len()],
{
}

/// The most general storage trait. We merely require that we can index into
/// the data, and that the storage has some length. Getting a value with an
/// index less than the length must always succeed, and with any other index it
/// must always fail.
///
/// Types implementing this trait need not own the data or even have mutable
/// access to it.
pub trait Storage: Sized {
    /// The inner type that's being stored.
    type Inner;

    /// The model of the storage: its elements, in order.
    spec fn contents(&self) -> Seq<Self::Inner>;

    /// Well-formedness of the storage. Constructors establish it and every
    /// operation preserves it.
    spec fn wf(&self) -> bool;

    /// The size of the storage if statically known, or `None` otherwise.
    spec fn static_size() -> Option<nat>;

    /// A storage that declares a static size always holds exactly that many
    /// elements.
    proof fn static_size_law(&self)
        requires
            self.wf(),
        ensures
            Self::static_size() matches Some(n) ==> self.contents().len() == n,
    ;

    /// Gets a reference to the element at a given index. This produces a
    /// `Some` exactly when `index < self.len()`.
    fn get(&self, index: usize) -> (r: Option<&Self::Inner>)
        requires
            self.wf(),
        ensures
            r is Some <==> index < self.contents().len(),
            r matches Some(v) ==> *v == self.contents()[index as int],
    ;

    /// Returns the length of the storage.
    fn len(&self) -> (n: usize)
        requires
            self.wf(),
        ensures
            n == self.contents().len(),
    ;

    /// Returns the size of the storage.
    fn size(&self) -> (s: Size<Self>)
        requires
            self.wf(),
        ensures
            s.value_spec() == self.contents().len(),
    ;

    /// Returns an iterator over references to the storage's elements.
    fn iter<'a>(&'a self) -> (it: Iter<'a, Self>)
        requires
            self.wf(),
        ensures
            it.storage == self,
            it.index == 0,
    ;
}

/// A [`Storage`] that has mutable access to its data.
///
/// Writing through the reference returned by [`StorageMut::get_mut`] updates
/// exactly the chosen index and nothing else: this is the aliasing discipline
/// that makes indexed mutable iteration sound.
pub trait StorageMut: Storage {
    /// Gets a mutable reference to the element at a given index.
    fn get_mut(&mut self, index: usize) -> (r: &mut Self::Inner)
        requires
            old(self).wf(),
            index < old(self).contents().len(),
        ensures
            *r == old(self).contents()[index as int],
            final(self).contents() == old(self).contents().update(index as int, *final(r)),
            final(self).wf(),
    ;

    /// Overwrites the element at a given index.
    fn set(&mut self, index: usize, value: Self::Inner)
        requires
            old(self).wf(),
            index < old(self).contents().len(),
        ensures
            final(self).wf(),
            final(self).contents() == old(self).contents().update(index as int, value),
    {
        let r = self.get_mut(index);
        *r = value;
    }

    /// Swaps the values at two indices.
    fn swap(&mut self, i: usize, j: usize)
        requires
            old(self).wf(),
            i < old(self).contents().len(),
            j < old(self).contents().len(),
        ensures
            final(self).wf(),
            final(self).contents() == old(self).contents().update(
                i as int,
                old(self).contents()[j as int],
            ).update(j as int, old(self).contents()[i as int]),
    ;
}

/// A [`Storage`] whose data is stored contiguously in memory: the whole
/// storage can be viewed as one slice of elements.
pub trait ContiguousStorage: Storage {
    /// Returns the inner slice storage.
    fn as_slice(&self) -> (s: &[Self::Inner])
        requires
            self.wf(),
        ensures
            s@ == self.contents(),
    ;

    /// An automatically-derived implementation of the [`Storage::get`] method.
    fn _get(&self, index: usize) -> (r: Option<&Self::Inner>)
        requires
            self.wf(),
        ensures
            r is Some <==> index < self.contents().len(),
            r matches Some(v) ==> *v == self.contents()[index as int],
    {
        let s = self.as_slice();
        if index < s.len() {
            Some(&s[index])
        } else {
            None
        }
    }

    /// An automatically-derived implementation of the [`Storage::len`] method.
    fn _len(&self) -> (n: usize)
        requires
            self.wf(),
        ensures
            n == self.contents().len(),
    {
        self.as_slice().len()
    }

    /// Indexing derived from the slice view.
    fn _index(&self, index: usize) -> (r: &Self::Inner)
        requires
            self.wf(),
            index < self.contents().len(),
        ensures
            *r == self.contents()[index as int],
    {
        &self.as_slice()[index]
    }
}

/// A [`StorageMut`] whose data is stored contiguously in memory. That is,
/// we're able to provide a mutable slice of the whole storage.
pub trait ContiguousStorageMut: StorageMut + ContiguousStorage {
    /// Returns the inner mutable slice storage. Writes through the slice
    /// become the new contents; they cannot change the length.
    fn as_mut_slice(&mut self) -> (s: &mut [Self::Inner])
        requires
            old(self).wf(),
        ensures
            s@ == old(self).contents(),
            final(self).contents() == final(s)@,
            final(s)@.len() == old(self).contents().len() ==> final(self).wf(),
    ;
}

/// A storage that owns its data: it can be built from a sequence of elements
/// and decomposed back into one.
///
/// An owned storage can either have a fixed static size, or it must be
/// initializable with any size it accepts; [`OwnedStorage::can_build_len`]
/// says which lengths a sequence may have for construction to succeed.
pub trait OwnedStorage: StorageMut {
    /// The lengths of element sequences this storage can be built from.
    spec fn can_build_len(n: nat) -> bool;

    /// Builds the storage from a sequence of elements.
    fn from_vec(v: Vec<Self::Inner>) -> (r: Self)
        requires
            Self::can_build_len(v@.len()),
        ensures
            r.wf(),
            r.contents() == v@,
    ;

    /// Decomposes the storage back into the sequence of its elements.
    fn into_vec(self) -> (v: Vec<Self::Inner>)
        requires
            self.wf(),
        ensures
            v@ == self.contents(),
    ;
}

/// A wrapper around a stack-allocated storage, which allows one to set the
/// elements from left to right before the storage exists as a value.
///
/// Lifecycle: created empty; elements pushed one at a time while there is
/// room; consumed by [`UninitStackStorage::init`] once exactly `S::size_spec()`
/// elements were pushed. If the wrapper is discarded before `init`, exactly
/// the elements pushed so far are dropped, no more and no fewer: they live in
/// an ordinary vector, so no uninitialized slot is ever treated as live.
pub struct UninitStackStorage<S: StackStorage> {
    /// The elements written so far, in order.
    data: Vec<<S as Storage>::Inner>,
}

impl<S: StackStorage> UninitStackStorage<S> {
    /// The elements pushed so far.
    pub closed spec fn filled(&self) -> Seq<<S as Storage>::Inner> {
        self.data@
    }

    /// Builds a new uninitialized stack storage.
    pub fn new() -> (r: Self)
        ensures
            r.filled() == Seq::<<S as Storage>::Inner>::empty(),
    {
        Self { data: Vec::new() }
    }

    /// Pushes a value into the next free slot of the storage. The storage
    /// must not be full.
    pub fn push(&mut self, value: <S as Storage>::Inner)
        requires
            old(self).filled().len() < S::size_spec(),
        ensures
            final(self).filled() == old(self).filled().push(value),
    {
        self.data.push(value);
    }

    /// Pushes every value of a sequence, in order. The values must all fit.
    pub fn extend(&mut self, values: Vec<<S as Storage>::Inner>)
        requires
            old(self).filled().len() + values@.len() <= S::size_spec(),
        ensures
            final(self).filled() == old(self).filled() + values@,
    {
        let mut values = values;
        self.data.append(&mut values);
    }

    /// Returns the initialized storage. The storage must have been fully
    /// initialized: ownership of the elements transfers directly from the
    /// staged buffer to the result.
    pub fn init(self) -> (r: S)
        requires
            self.filled().len() == S::size_spec(),
        ensures
            r.wf(),
            r.contents() == self.filled(),
    {
        S::from_flat(self.data)
    }
}

/// A stack-allocated contiguous data buffer. The size of the buffer must be
/// statically known.
///
/// The defining invariant of this capability is that the buffer is, up to its
/// model, nothing but a flat sequence of exactly `Self::size_spec()` elements:
/// [`StackStorage::from_flat`] adopts such a sequence wholesale, and
/// [`StackStorage::transmute_buffer`] moves it between any two buffer types of
/// equal static size without touching the elements.
pub trait StackStorage: ContiguousStorageMut + OwnedStorage {
    /// The size of the buffer.
    spec fn size_spec() -> nat;

    /// A stack storage always has a static size, and accepts exactly the
    /// sequences of that length for construction.
    proof fn stack_law()
        ensures
            Self::static_size() == Some(Self::size_spec()),
            forall|n: nat| Self::can_build_len(n) <==> n == Self::size_spec(),
    ;

    /// The single audited reinterpretation primitive: adopts a flat buffer of
    /// exactly the right length as a value of this storage type.
    fn from_flat(v: Vec<Self::Inner>) -> (r: Self)
        requires
            v@.len() == Self::size_spec(),
        ensures
            r.wf(),
            r.contents() == v@,
    ;

}

/// Builds a stack storage from a sequence of exactly the right length, going
/// through the staged initializer.
pub fn build_staged<S: StackStorage>(v: Vec<<S as Storage>::Inner>) -> (r: S)
    requires
        v@.len() == S::size_spec(),
    ensures
        r.wf(),
        r.contents() == v@,
{
    let mut uninit = UninitStackStorage::<S>::new();
    uninit.extend(v);
    uninit.init()
}

/// The round-trip law of ownership: building an owned storage from any
/// sequence its shape accepts and decomposing it again yields the original
/// elements in their original order.
pub fn round_trip<S: OwnedStorage>(v: Vec<<S as Storage>::Inner>) -> (r: Vec<
    <S as Storage>::Inner,
>)
    requires
        S::can_build_len(v@.len()),
    ensures
        r@ == v@,
{
    S::from_vec(v).into_vec()
}

/// Merges two stack storages into a joined type.
pub fn merge_join<A: StackStorage, B: StackStorage<Inner = <A as Storage>::Inner>>(a: A, b: B) -> (r:
    Join<A, B>)
    requires
        a.wf(),
        b.wf(),
    ensures
        r.wf(),
        r.contents() == a.contents() + b.contents(),
{
    Join::new(a, b)
}

/// Transmutes a stack buffer into another of the same size. The elements move
/// wholesale: none is duplicated and none is dropped.
///
/// The run-time size assertions of a layout-level reinterpretation become a
/// static precondition here: a call between buffers of unequal size does not
/// verify.
pub fn transmute_buffer<S1: StackStorage, S2: StackStorage<Inner = <S1 as Storage>::Inner>>(
    s: S1,
) -> (r: S2)
    requires
        s.wf(),
        S1::size_spec() == S2::size_spec(),
    ensures
        r.wf(),
        r.contents() == s.contents(),
{
    proof {
        S1::stack_law();
        S2::stack_law();
        s.static_size_law();
    }
    S2::from_flat(s.into_vec())
}

/// Transmutes a stack buffer into a flat array of single-element leaves of
/// the same total count. Due to limitations on const generics, the count must
/// be spelled out by the caller.
pub fn transmute_array<S1: StackStorage, const N: usize>(s: S1) -> (r: ArrayStorage<
    Entry<<S1 as Storage>::Inner>,
    N,
>)
    requires
        s.wf(),
        S1::size_spec() == N,
    ensures
        r.wf(),
        r.contents() == s.contents(),
{
    proof {
        assert(ArrayStorage::<Entry<<S1 as Storage>::Inner>, N>::size_spec() == 1 * N as nat);
    }
    transmute_buffer(s)
}

} // verus!
