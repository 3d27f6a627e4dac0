//! Permutations over any storage of indices.

use vstd::prelude::*;

verus! {

use vstd::pervasive::VecAdditionalExecFns;
use crate::storage::{ArrayStorageE, Iter, OwnedStorage, Size, Storage, StorageMut, VecStorageE};

/// The parity of a permutation.
#[derive(Clone, Copy, Debug, PartialEq, Eq, Structural)]
pub enum Parity {
    /// Even parity.
    Even,
    /// Odd parity.
    Odd,
}

impl Parity {
    /// The opposite parity.
    pub open spec fn flip_spec(self) -> Parity {
        match self {
            Parity::Even => Parity::Odd,
            Parity::Odd => Parity::Even,
        }
    }

    /// Flips the parity of `self`.
    #[must_use]
    pub fn flip(&self) -> (r: Self)
        ensures
            r == self.flip_spec(),
    {
        match self {
            Self::Even => Self::Odd,
            Self::Odd => Self::Even,
        }
    }

    /// Flips the parity of `self` in place.
    pub fn flip_mut(&mut self)
        ensures
            *final(self) == old(self).flip_spec(),
    {
        *self = self.flip();
    }
}

/// A sequence of indices is a permutation when its entries are numbers from 0
/// to its length minus 1, all pairwise different.
pub open spec fn is_perm(s: Seq<usize>) -> bool {
    &&& forall|i: int| 0 <= i < s.len() ==> (#[trigger] s[i]) < s.len()
    &&& forall|i: int, j: int|
        0 <= i < s.len() && 0 <= j < s.len() && i != j ==> s[i] != s[j]
}

/// The number of indices `m` in `[0, i)` with `s[m] > s[j]`.
pub open spec fn invs_at(s: Seq<usize>, j: int, i: int) -> nat
    decreases i,
{
    if i <= 0 {
        0
    } else {
        invs_at(s, j, i - 1) + if s[i - 1] > s[j] {
            1nat
        } else {
            0nat
        }
    }
}

/// The number of inversions among the first `j` entries of `s`: pairs
/// `m < l < j` with `s[m] > s[l]`.
pub open spec fn invs_upto(s: Seq<usize>, j: int) -> nat
    decreases j,
{
    if j <= 0 {
        0
    } else {
        invs_upto(s, j - 1) + invs_at(s, j - 1, j - 1)
    }
}

/// The number of inversions of `s`: pairs of positions in the wrong order.
/// A permutation is even exactly when this count is.
pub open spec fn inversions(s: Seq<usize>) -> nat {
    invs_upto(s, s.len() as int)
}

/// The identity sequence of a given length.
pub open spec fn identity_seq(n: nat) -> Seq<usize> {
    Seq::new(n, |i: int| i as usize)
}

/// Swapping two entries of a permutation leaves a permutation.
proof fn lemma_is_perm_swap(s: Seq<usize>, i: int, j: int)
    requires
        is_perm(s),
        0 <= i < s.len(),
        0 <= j < s.len(),
    ensures
        is_perm(s.update(i, s[j]).update(j, s[i])),
{
    let t = s.update(i, s[j]).update(j, s[i]);
    assert forall|a: int| 0 <= a < t.len() implies (#[trigger] t[a]) < t.len() by {
        assert(t[a] == s[a] || t[a] == s[i] || t[a] == s[j]);
    }
    assert forall|a: int, b: int|
        0 <= a < t.len() && 0 <= b < t.len() && a != b implies t[a] != t[b] by {
        let sa = if a == i { j } else if a == j { i } else { a };
        let sb = if b == i { j } else if b == j { i } else { b };
        assert(t[a] == s[sa]);
        assert(t[b] == s[sb]);
    }
}

/// Represents a permutation. This is stored as some storage of `usize` whose
/// entries must be numbers from 0 to the length of the permutation minus 1,
/// all pairwise different.
pub struct Permutation<S: Storage<Inner = usize>>(S);

/// A statically-sized permutation, backed by an [`ArrayStorageE`].
pub type PermutationS<const N: usize> = Permutation<ArrayStorageE<usize, N>>;

/// A dynamically-sized permutation, backed by a [`VecStorageE`].
pub type PermutationD = Permutation<VecStorageE<usize>>;

impl<S: Storage<Inner = usize>> Permutation<S> {
    /// The entries of the permutation, in order.
    pub closed spec fn contents(&self) -> Seq<usize> {
        self.0.contents()
    }

    /// Well-formedness of the backing storage.
    pub closed spec fn wf(&self) -> bool {
        self.0.wf()
    }

    /// The permutation invariant: entries below the length, pairwise
    /// different.
    pub open spec fn valid(&self) -> bool {
        is_perm(self.contents())
    }

    /// Returns the length of the permutation.
    pub fn len(&self) -> (n: usize)
        requires
            self.wf(),
        ensures
            n == self.contents().len(),
    {
        self.0.len()
    }

    /// Returns whether the permutation is empty.
    pub fn is_empty(&self) -> (r: bool)
        requires
            self.wf(),
        ensures
            r <==> self.contents().len() == 0,
    {
        self.0.len() == 0
    }

    /// Returns the size of the permutation.
    pub fn size(&self) -> (s: Size<S>)
        requires
            self.wf(),
        ensures
            s.value_spec() == self.contents().len(),
    {
        self.0.size()
    }

    /// Returns an iterator over the entries of the permutation.
    pub fn iter<'a>(&'a self) -> (it: Iter<'a, S>)
        requires
            self.wf(),
        ensures
            it.index == 0,
            it.storage.wf(),
            it.storage.contents() == self.contents(),
    {
        self.0.iter()
    }

    /// Returns the entry at a given position.
    pub fn index(&self, i: usize) -> (r: usize)
        requires
            self.wf(),
            i < self.contents().len(),
        ensures
            r == self.contents()[i as int],
    {
        *self.0.get(i).unwrap()
    }

    /// Returns the parity of the permutation: even exactly when its number of
    /// inversions is even.
    pub fn parity(&self) -> (r: Parity)
        requires
            self.wf(),
        ensures
            (r == Parity::Even) <==> inversions(self.contents()) % 2 == 0,
    {
        let ghost c = self.contents();
        let n = self.0.len();
        let mut p = Parity::Even;
        let mut j: usize = 0;
        while j < n
            invariant
                self.wf(),
                c == self.contents(),
                n == c.len(),
                j <= n,
                (p == Parity::Even) <==> invs_upto(c, j as int) % 2 == 0,
            decreases n - j,
        {
            let vj = *self.0.get(j).unwrap();
            let mut i: usize = 0;
            while i < j
                invariant
                    self.wf(),
                    c == self.contents(),
                    n == c.len(),
                    j < n,
                    i <= j,
                    vj == c[j as int],
                    (p == Parity::Even) <==> (invs_upto(c, j as int) + invs_at(
                        c,
                        j as int,
                        i as int,
                    )) % 2 == 0,
                decreases j - i,
            {
                let vi = *self.0.get(i).unwrap();
                if vi > vj {
                    p = p.flip();
                }
                i = i + 1;
            }
            j = j + 1;
        }
        p
    }
}

impl<S: Storage<Inner = usize>> Permutation<S> {
    /// Composes `self` with another permutation and assigns the result to
    /// it: afterwards `p` sends `i` to `self[p[i]]`.
    pub fn compose_mut_rhs<A: StorageMut<Inner = usize>>(&self, p: &mut Permutation<A>)
        requires
            self.wf(),
            old(p).wf(),
            forall|i: int|
                0 <= i < old(p).contents().len() ==> (#[trigger] old(p).contents()[i])
                    < self.contents().len(),
        ensures
            final(p).wf(),
            final(p).contents().len() == old(p).contents().len(),
            forall|i: int|
                0 <= i < old(p).contents().len() ==> (#[trigger] final(p).contents()[i])
                    == self.contents()[old(p).contents()[i] as int],
            self.valid() && old(p).valid() && self.contents().len()
                == old(p).contents().len() ==> final(p).valid(),
    {
        let ghost sc = self.contents();
        let ghost qc = old(p).contents();
        let n = p.0.len();
        let mut i: usize = 0;
        while i < n
            invariant
                self.wf(),
                p.wf(),
                sc == self.contents(),
                n == qc.len(),
                p.contents().len() == qc.len(),
                i <= n,
                forall|k: int| 0 <= k < qc.len() ==> (#[trigger] qc[k]) < sc.len(),
                forall|k: int| i <= k < qc.len() ==> (#[trigger] p.contents()[k]) == qc[k],
                forall|k: int|
                    0 <= k < i ==> (#[trigger] p.contents()[k]) == sc[qc[k] as int],
            decreases n - i,
        {
            let v = *p.0.get(i).unwrap();
            let w = *self.0.get(v).unwrap();
            p.0.set(i, w);
            i = i + 1;
        }
        proof {
            if is_perm(sc) && is_perm(qc) && sc.len() == qc.len() {
                let rc = p.contents();
                assert forall|a: int| 0 <= a < rc.len() implies (#[trigger] rc[a]) < rc.len() by {
                    assert(rc[a] == sc[qc[a] as int]);
                }
                assert forall|a: int, b: int|
                    0 <= a < rc.len() && 0 <= b < rc.len() && a != b implies rc[a] != rc[b] by {
                    assert(rc[a] == sc[qc[a] as int]);
                    assert(rc[b] == sc[qc[b] as int]);
                    assert(qc[a] != qc[b]);
                }
            }
        }
    }
}

impl<S: StorageMut<Inner = usize>> Permutation<S> {
    /// Swaps two values in the permutation. A permutation stays a
    /// permutation under a swap.
    pub fn swap(&mut self, i: usize, j: usize)
        requires
            old(self).wf(),
            i < old(self).contents().len(),
            j < old(self).contents().len(),
        ensures
            final(self).wf(),
            final(self).contents() == old(self).contents().update(
                i as int,
                old(self).contents()[j as int],
            ).update(j as int, old(self).contents()[i as int]),
            old(self).valid() ==> final(self).valid(),
    {
        proof {
            if is_perm(self.contents()) {
                lemma_is_perm_swap(self.contents(), i as int, j as int);
            }
        }
        self.0.swap(i, j);
    }
}

impl<S: OwnedStorage<Inner = usize>> Permutation<S> {
    /// Initializes a new permutation. The invariant is stated, not checked:
    /// the entries must already be known to be pairwise distinct integers
    /// below the length. For the run-time check, use [`Permutation::new`].
    pub fn new_unchecked(s: S) -> (r: Self)
        requires
            s.wf(),
            is_perm(s.contents()),
        ensures
            r.wf(),
            r.valid(),
            r.contents() == s.contents(),
    {
        Self(s)
    }

    /// Initializes a new permutation. Will check that the entries are valid:
    /// the result is `Some` exactly when the entries form a permutation.
    pub fn new(s: S) -> (r: Option<Self>)
        requires
            s.wf(),
        ensures
            r is Some <==> is_perm(s.contents()),
            r matches Some(p) ==> p.wf() && p.valid() && p.contents() == s.contents(),
    {
        let ghost c = s.contents();
        let n = s.len();
        // We check that there are no repeat entries, nor entries out of
        // bounds.
        let mut checked: Vec<bool> = vec![false; n];
        let mut k: usize = 0;
        while k < n
            invariant
                s.wf(),
                c == s.contents(),
                n == c.len(),
                k <= n,
                checked@.len() == n,
                forall|v: int|
                    0 <= v < n ==> ((#[trigger] checked@[v]) <==> exists|m: int|
                        0 <= m < k && c[m] == v),
                forall|m: int| 0 <= m < k ==> (#[trigger] c[m]) < n,
                forall|a: int, b: int| 0 <= a < k && 0 <= b < k && a != b ==> c[a] != c[b],
            decreases n - k,
        {
            let v = *s.get(k).unwrap();
            if v >= n {
                proof {
                    assert(c[k as int] >= c.len());
                }
                return None;
            }
            if checked[v] {
                proof {
                    let m = choose|m: int| 0 <= m < k && c[m] == v as int;
                    assert(c[m] == c[k as int] && m != k as int);
                }
                return None;
            }
            checked.set(v, true);
            proof {
                assert forall|w: int|
                    0 <= w < n implies ((#[trigger] checked@[w]) <==> exists|m: int|
                        0 <= m < k + 1 && c[m] == w) by {
                    if w == v as int {
                        assert(c[k as int] == w);
                    } else {
                        if checked@[w] {
                            let m = choose|m: int| 0 <= m < k && c[m] == w;
                            assert(0 <= m < k + 1 && c[m] == w);
                        } else {
                            if exists|m: int| 0 <= m < k + 1 && c[m] == w {
                                let m = choose|m: int| 0 <= m < k + 1 && c[m] == w;
                                assert(m == k as int ==> c[m] == v as int);
                                assert(0 <= m < k && c[m] == w);
                            }
                        }
                    }
                }
            }
            k = k + 1;
        }
        // We just checked the invariants.
        Some(Self(s))
    }

    /// Returns the identity permutation of a given size.
    pub fn identity(size: Size<S>) -> (r: Self)
        requires
            S::can_build_len(size.value_spec() as nat),
        ensures
            r.wf(),
            r.valid(),
            r.contents() == identity_seq(size.value_spec() as nat),
    {
        let n = size.value();
        let mut v: Vec<usize> = Vec::new();
        let mut i: usize = 0;
        while i < n
            invariant
                i <= n,
                v@ == identity_seq(i as nat),
            decreases n - i,
        {
            v.push(i);
            proof {
                assert(v@ =~= identity_seq((i + 1) as nat));
            }
            i = i + 1;
        }
        Self(S::from_vec(v))
    }

    /// Composes two permutations together: the result sends `i` to
    /// `p[q[i]]`.
    pub fn compose<A: Storage<Inner = usize>, B: Storage<Inner = usize>>(
        p: &Permutation<A>,
        q: &Permutation<B>,
    ) -> (r: Self)
        requires
            p.wf(),
            q.wf(),
            q.valid(),
            q.contents().len() == p.contents().len(),
            S::can_build_len(p.contents().len()),
        ensures
            r.wf(),
            r.contents().len() == p.contents().len(),
            forall|i: int|
                0 <= i < p.contents().len() ==> (#[trigger] r.contents()[i]) == p.contents()[
                    q.contents()[i] as int
                ],
            p.valid() ==> r.valid(),
    {
        let ghost pc = p.contents();
        let ghost qc = q.contents();
        let n = p.0.len();
        let mut v: Vec<usize> = Vec::new();
        let mut idx: usize = 0;
        while idx < n
            invariant
                p.wf(),
                q.wf(),
                pc == p.contents(),
                qc == q.contents(),
                is_perm(qc),
                n == pc.len(),
                n == qc.len(),
                idx <= n,
                v@.len() == idx,
                forall|i: int| 0 <= i < idx ==> (#[trigger] v@[i]) == pc[qc[i] as int],
            decreases n - idx,
        {
            let qi = *q.0.get(idx).unwrap();
            let pi = *p.0.get(qi).unwrap();
            v.push(pi);
            idx = idx + 1;
        }
        let r = Self(S::from_vec(v));
        proof {
            if is_perm(pc) {
                let rc = r.contents();
                assert forall|i: int| 0 <= i < rc.len() implies (#[trigger] rc[i]) < rc.len() by {
                    assert(rc[i] == pc[qc[i] as int]);
                }
                assert forall|a: int, b: int|
                    0 <= a < rc.len() && 0 <= b < rc.len() && a != b implies rc[a] != rc[b] by {
                    assert(rc[a] == pc[qc[a] as int]);
                    assert(rc[b] == pc[qc[b] as int]);
                    assert(qc[a] != qc[b]);
                }
            }
        }
        r
    }
}

} // verus!
