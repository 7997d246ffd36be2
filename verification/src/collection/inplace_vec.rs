//! The fixed-capacity sibling of the growable vector: room for exactly `N`
//! elements is part of the type, nothing is ever allocated on demand, and
//! the container never grows. It reuses the same element-lifecycle shape —
//! an initialized prefix `[0, len)` behind a logical length — without any
//! buffer manager. Pushing into a full container, and every index bounds
//! violation, is a contract violation; each is excluded by precondition,
//! so the verified operations never panic.

use super::vec::{seq_eq_by, seq_partial_cmp_by};
use core::cmp::Ordering;
use vstd::prelude::*;
use vstd::std_specs::cmp::{PartialEqSpec, PartialOrdSpec};

pub use super::inplace_drain::Drain;
pub use super::inplace_into_iter::IntoIter;

verus! {

/// A contiguous owned sequence of at most `N` elements of `T`.
#[derive(Debug)]
pub struct InplaceVec<const N: usize, T> {
    pub(crate) buf: Vec<T>,
}

impl<const N: usize, T> View for InplaceVec<N, T> {
    type V = Seq<T>;

    open(crate) spec fn view(&self) -> Seq<T> {
        self.buf@
    }
}

impl<const N: usize, T> InplaceVec<N, T> {
    /// Well-formedness: the length never exceeds the fixed capacity.
    pub open spec fn wf(&self) -> bool {
        self@.len() <= N
    }

    /// An empty container; its `N` slots exist from the start.
    pub fn new() -> (v: Self)
        ensures
            v.wf(),
            v@ == Seq::<T>::empty(),
    {
        InplaceVec { buf: Vec::new() }
    }

    /// The number of initialized elements.
    pub fn len(&self) -> (r: usize)
        ensures
            r == self@.len(),
    {
        self.buf.len()
    }

    /// The fixed capacity, `N`.
    pub fn capacity(&self) -> (r: usize)
        ensures
            r == N,
    {
        N
    }

    /// Whether no element is initialized.
    pub fn is_empty(&self) -> (r: bool)
        ensures
            r == (self@.len() == 0),
    {
        self.buf.len() == 0
    }

    /// Whether one more element still fits: the overflow check that
    /// callers make before every write into the fixed buffer.
    pub fn has_room(&self) -> (r: bool)
        ensures
            r == (self@.len() < N),
    {
        self.buf.len() < N
    }

    /// Appends one element; the container must not be full.
    pub fn push(&mut self, value: T)
        requires
            old(self).wf(),
            old(self)@.len() < N,
        ensures
            final(self).wf(),
            final(self)@ == old(self)@.push(value),
    {
        self.buf.push(value);
    }

    /// Removes and returns the last element, or `None` when the container
    /// is empty; the vacated slot becomes logically uninitialized.
    pub fn pop(&mut self) -> (r: Option<T>)
        requires
            old(self).wf(),
        ensures
            final(self).wf(),
            old(self)@.len() == 0 ==> r is None && final(self)@ == old(self)@,
            old(self)@.len() > 0 ==> r == Some(old(self)@.last()) && final(self)@ == old(
                self,
            )@.drop_last(),
    {
        let r = self.buf.pop();
        proof {
            if old(self)@.len() > 0 {
                assert(final(self)@ =~= old(self)@.drop_last());
            }
        }
        r
    }

    /// The initialized prefix, as a slice of exactly `len` elements.
    pub fn as_slice(&self) -> (r: &[T])
        ensures
            r@ == self@,
    {
        self.buf.as_slice()
    }

    /// The element at `index`; indexing at or past the length is a
    /// contract violation and is excluded here.
    pub fn index(&self, index: usize) -> (r: &T)
        requires
            index < self@.len(),
        ensures
            *r == self@[index as int],
    {
        &self.buf[index]
    }

    /// Overwrites the element at `index` in place.
    pub fn set(&mut self, index: usize, value: T)
        requires
            old(self).wf(),
            index < old(self)@.len(),
        ensures
            final(self).wf(),
            final(self)@ == old(self)@.update(index as int, value),
    {
        self.buf[index] = value;
    }

    /// Inserts `value` at `index`, shifting `[index, len)` one slot right.
    /// The container must not be full, and inserting past the length is a
    /// contract violation; inserting exactly at the length appends.
    pub fn insert(&mut self, index: usize, value: T)
        requires
            old(self).wf(),
            old(self)@.len() < N,
            index <= old(self)@.len(),
        ensures
            final(self).wf(),
            final(self)@ == old(self)@.insert(index as int, value),
    {
        self.buf.insert(index, value);
    }

    /// Removes and returns the element at `index`, shifting
    /// `[index + 1, len)` one slot left. Removing at or past the length is
    /// a contract violation and is excluded.
    pub fn remove(&mut self, index: usize) -> (r: T)
        requires
            old(self).wf(),
            index < old(self)@.len(),
        ensures
            final(self).wf(),
            r == old(self)@[index as int],
            final(self)@ == old(self)@.remove(index as int),
    {
        self.buf.remove(index)
    }

    /// Removes every element.
    pub fn clear(&mut self)
        requires
            old(self).wf(),
        ensures
            final(self).wf(),
            final(self)@ == Seq::<T>::empty(),
    {
        self.buf.clear();
    }
}

impl<const N: usize, T: Copy> InplaceVec<N, T> {
    /// Appends every element of `other` in order; the whole slice must fit
    /// into the remaining room, or the request would overflow the fixed
    /// capacity.
    pub fn extend_from_slice(&mut self, other: &[T])
        requires
            old(self).wf(),
            old(self)@.len() + other@.len() <= N,
        ensures
            final(self).wf(),
            final(self)@ == old(self)@ + other@,
    {
        let mut i: usize = 0;
        while i < other.len()
            invariant
                i <= other@.len(),
                old(self)@.len() + other@.len() <= N,
                self@ == old(self)@ + other@.subrange(0, i as int),
            decreases other@.len() - i,
        {
            let x = other[i];
            self.buf.push(x);
            proof {
                assert(self@ =~= old(self)@ + other@.subrange(0, i + 1));
            }
            i = i + 1;
        }
        proof {
            assert(other@.subrange(0, other@.len() as int) =~= other@);
        }
    }

    /// A fresh container holding a copy of `other`, which must fit in `N`
    /// slots.
    pub fn from_slice(other: &[T]) -> (v: Self)
        requires
            other@.len() <= N,
        ensures
            v.wf(),
            v@ == other@,
    {
        let mut v = Self::new();
        v.extend_from_slice(other);
        proof {
            assert(v@ =~= other@);
        }
        v
    }

    /// A copy of the container with the same elements.
    pub fn clone(&self) -> (v: Self)
        requires
            self.wf(),
        ensures
            v.wf(),
            v@ == self@,
    {
        Self::from_slice(self.as_slice())
    }

    /// Overwrites this container with a copy of `source`.
    pub fn clone_from(&mut self, source: &InplaceVec<N, T>)
        requires
            old(self).wf(),
            source.wf(),
        ensures
            final(self).wf(),
            final(self)@ == source@,
    {
        self.clear();
        self.extend_from_slice(source.as_slice());
        proof {
            assert(final(self)@ =~= source@);
        }
    }
}

impl<const N: usize, T> Default for InplaceVec<N, T> {
    /// The empty container.
    fn default() -> (v: Self)
        ensures
            v.wf(),
            v@ == Seq::<T>::empty(),
    {
        Self::new()
    }
}

impl<const N: usize, T: PartialEq> PartialEq for InplaceVec<N, T> {
    /// Structural equality, defined over the logical element sequence
    /// alone — the unused slots play no part.
    fn eq(&self, other: &Self) -> (r: bool) {
        if self.buf.len() != other.buf.len() {
            return false;
        }
        let mut i: usize = 0;
        while i < self.buf.len()
            invariant
                i <= self@.len(),
                self@.len() == other@.len(),
                T::obeys_eq_spec() ==> (forall|j: int|
                    0 <= j < i ==> #[trigger] self@[j].eq_spec(&other@[j])),
            decreases self@.len() - i,
        {
            if !(self.buf[i] == other.buf[i]) {
                return false;
            }
            i = i + 1;
        }
        true
    }
}

impl<const N: usize, T: PartialEq + Eq> Eq for InplaceVec<N, T> {

}

impl<const N: usize, T: PartialEq> vstd::std_specs::cmp::PartialEqSpecImpl for InplaceVec<N, T> {
    open spec fn obeys_eq_spec() -> bool {
        T::obeys_eq_spec()
    }

    open spec fn eq_spec(&self, other: &Self) -> bool {
        seq_eq_by(self@, other@)
    }
}

impl<const N: usize, T: PartialOrd> PartialOrd for InplaceVec<N, T> {
    /// Lexicographic ordering, defined over the logical element sequence
    /// alone — the unused slots play no part.
    fn partial_cmp(&self, other: &Self) -> (r: Option<Ordering>) {
        let a_len = self.buf.len();
        let b_len = other.buf.len();
        let n = if a_len <= b_len {
            a_len
        } else {
            b_len
        };
        let mut i: usize = 0;
        proof {
            assert(self@.skip(0) =~= self@);
            assert(other@.skip(0) =~= other@);
        }
        while i < n
            invariant
                i <= n,
                n == (if self@.len() <= other@.len() {
                    self@.len() as int
                } else {
                    other@.len() as int
                }),
                T::obeys_partial_cmp_spec() ==> seq_partial_cmp_by(self@, other@)
                    == seq_partial_cmp_by(self@.skip(i as int), other@.skip(i as int)),
            decreases n - i,
        {
            let c = self.buf[i].partial_cmp(&other.buf[i]);
            proof {
                if T::obeys_partial_cmp_spec() {
                    let sa = self@.skip(i as int);
                    let sb = other@.skip(i as int);
                    assert(sa[0] == self@[i as int]);
                    assert(sb[0] == other@[i as int]);
                    assert(sa.drop_first() =~= self@.skip(i + 1));
                    assert(sb.drop_first() =~= other@.skip(i + 1));
                }
            }
            match c {
                Option::Some(Ordering::Equal) => {
                    i = i + 1;
                },
                _ => {
                    return c;
                },
            }
        }
        proof {
            if T::obeys_partial_cmp_spec() {
                assert(seq_partial_cmp_by(self@.skip(i as int), other@.skip(i as int))
                    == (if self@.len() == other@.len() {
                    Some(Ordering::Equal)
                } else if self@.len() < other@.len() {
                    Some(Ordering::Less)
                } else {
                    Some(Ordering::Greater)
                }));
            }
        }
        if a_len == b_len {
            Some(Ordering::Equal)
        } else if a_len < b_len {
            Some(Ordering::Less)
        } else {
            Some(Ordering::Greater)
        }
    }
}

impl<const N: usize, T: PartialOrd> vstd::std_specs::cmp::PartialOrdSpecImpl for InplaceVec<N, T> {
    open spec fn obeys_partial_cmp_spec() -> bool {
        T::obeys_partial_cmp_spec()
    }

    open spec fn partial_cmp_spec(&self, other: &Self) -> Option<Ordering> {
        seq_partial_cmp_by(self@, other@)
    }
}

} // verus!
