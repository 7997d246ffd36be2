//! The growable vector: a buffer manager plus the logically initialized
//! prefix of its buffer. Every public operation states exactly how it
//! transforms the element sequence and what happens to the capacity.
//!
//! Capacity policy: `push` and `insert` grow only when the vector is full,
//! and growth doubles the capacity (or moves it from zero to one). Requests
//! that would take the buffer's byte size past the platform's signed-offset
//! limit are fatal allocation failures, never recoverable errors; the
//! preconditions here exclude them, so the verified operations neither
//! panic nor abort. Index bounds violations — the other failure class —
//! are likewise excluded by precondition.

use super::raw_vec::MyRawVec;
use vstd::layout::size_of;
use vstd::prelude::*;
use core::cmp::Ordering;
use vstd::std_specs::cmp::{PartialEqSpec, PartialOrdSpec};

pub use super::vec_drain::Drain;
pub use super::vec_into_iter::IntoIter;

verus! {

/// A growable contiguous owned sequence of `T`.
///
/// The element store holds exactly the initialized prefix `[0, len)`; the
/// buffer manager records how many slots the buffer is allowed to hold and
/// carries the growth policy.
#[derive(Debug)]
pub struct MyVec<T> {
    pub(crate) buf: MyRawVec<T>,
    pub(crate) data: Vec<T>,
}

impl<T> View for MyVec<T> {
    type V = Seq<T>;

    open(crate) spec fn view(&self) -> Seq<T> {
        self.data@
    }
}

impl<T> MyVec<T> {
    /// The capacity the vector currently reports.
    pub open(crate) spec fn spec_capacity(&self) -> usize {
        self.buf.spec_cap()
    }

    /// The buffer manager's own invariant.
    pub open(crate) spec fn buf_wf(&self) -> bool {
        self.buf.wf()
    }

    /// Well-formedness: the length never exceeds the capacity, the capacity
    /// never exceeds the signed-offset limit, and a zero-sized element type
    /// keeps the capacity at the sentinel maximum.
    pub open spec fn wf(&self) -> bool {
        &&& self.buf_wf()
        &&& self@.len() <= self.spec_capacity()
        &&& self.spec_capacity() <= isize::MAX as usize
        &&& (size_of::<T>() == 0 ==> self.spec_capacity() == isize::MAX as usize)
    }

    /// Whether one more element fits without a fatal growth failure: a
    /// zero-sized element type runs out only at the sentinel capacity, and
    /// a full non-empty buffer must be able to double inside the byte limit.
    pub open spec fn can_push(&self) -> bool {
        if size_of::<T>() == 0 {
            self@.len() < isize::MAX as usize
        } else if self@.len() == self.spec_capacity() && self.spec_capacity() > 0 {
            2 * self.spec_capacity() * size_of::<T>() <= isize::MAX as usize
        } else {
            true
        }
    }

    /// An empty vector; no storage is reserved.
    pub fn new() -> (v: Self)
        ensures
            v.wf(),
            v@ == Seq::<T>::empty(),
            v.spec_capacity() == MyRawVec::<T>::initial_cap(),
    {
        MyVec { buf: MyRawVec::new(), data: Vec::new() }
    }

    /// An empty vector whose buffer holds exactly `capacity` slots (a
    /// zero-sized element type stays at the sentinel capacity and reserves
    /// nothing).
    pub fn with_capacity(capacity: usize) -> (v: Self)
        requires
            size_of::<T>() != 0 ==> capacity * size_of::<T>() <= isize::MAX as usize,
        ensures
            v.wf(),
            v@ == Seq::<T>::empty(),
            v.spec_capacity() == (if size_of::<T>() == 0 {
                isize::MAX as usize
            } else {
                capacity
            }),
    {
        MyVec { buf: MyRawVec::with_capacity(capacity), data: Vec::with_capacity(capacity) }
    }

    /// The number of initialized elements.
    pub fn len(&self) -> (r: usize)
        ensures
            r == self@.len(),
    {
        self.data.len()
    }

    /// Whether no element is initialized.
    pub fn is_empty(&self) -> (r: bool)
        ensures
            r == (self@.len() == 0),
    {
        self.data.len() == 0
    }

    /// The number of elements the buffer can hold before it must grow.
    pub fn capacity(&self) -> (r: usize)
        ensures
            r == self.spec_capacity(),
    {
        self.buf.cap()
    }

    /// The initialized prefix, as a slice of exactly `len` elements.
    pub fn as_slice(&self) -> (r: &[T])
        ensures
            r@ == self@,
    {
        self.data.as_slice()
    }

    /// The element at `index`; indexing at or past the length is a contract
    /// violation and is excluded here.
    pub fn index(&self, index: usize) -> (r: &T)
        requires
            index < self@.len(),
        ensures
            *r == self@[index as int],
    {
        &self.data[index]
    }

    /// Overwrites the element at `index` in place.
    pub fn set(&mut self, index: usize, value: T)
        requires
            old(self).wf(),
            index < old(self)@.len(),
        ensures
            final(self).wf(),
            final(self)@ == old(self)@.update(index as int, value),
            final(self).spec_capacity() == old(self).spec_capacity(),
    {
        self.data[index] = value;
    }

    /// Ensures room for at least `additional` more elements, growing the
    /// buffer to exactly `len + additional` slots when it is smaller. A
    /// request past the signed-offset limit would be fatal and is excluded.
    pub fn reserve(&mut self, additional: usize)
        requires
            old(self).wf(),
            old(self)@.len() + additional <= isize::MAX as usize,
            size_of::<T>() != 0 && old(self)@.len() + additional > old(self).spec_capacity()
                ==> (old(self)@.len() + additional) * size_of::<T>() <= isize::MAX as usize,
        ensures
            final(self).wf(),
            final(self)@ == old(self)@,
            final(self).spec_capacity() >= old(self)@.len() + additional,
            final(self).spec_capacity() == (if old(self)@.len() + additional
                <= old(self).spec_capacity() {
                old(self).spec_capacity() as int
            } else {
                old(self)@.len() + additional
            }),
    {
        let new_cap = self.data.len() + additional;
        self.buf.reserve_exact(new_cap);
        self.data.reserve(additional);
    }

    /// Removes every element. The capacity is untouched.
    pub fn clear(&mut self)
        requires
            old(self).wf(),
        ensures
            final(self).wf(),
            final(self)@ == Seq::<T>::empty(),
            final(self).spec_capacity() == old(self).spec_capacity(),
    {
        self.data.clear();
    }

    /// Appends one element, growing the buffer first when it is full. The
    /// capacity is untouched whenever there was still room — so a sequence
    /// of pushes within the reserved capacity never reallocates — and
    /// strictly grows exactly when the vector was full.
    pub fn push(&mut self, elem: T)
        requires
            old(self).wf(),
            old(self).can_push(),
        ensures
            final(self).wf(),
            final(self)@ == old(self)@.push(elem),
            old(self)@.len() < old(self).spec_capacity() ==> final(self).spec_capacity()
                == old(self).spec_capacity(),
            old(self)@.len() == old(self).spec_capacity() ==> final(self).spec_capacity()
                > old(self).spec_capacity() && final(self).spec_capacity() == (if old(
                self,
            ).spec_capacity() == 0 {
                1int
            } else {
                2 * old(self).spec_capacity()
            }),
    {
        if self.data.len() == self.buf.cap() {
            self.grow();
        }
        self.data.push(elem);
    }

    /// Removes and returns the last element, or `None` when the vector is
    /// empty. The vacated slot becomes logically uninitialized; the capacity
    /// is untouched.
    pub fn pop(&mut self) -> (r: Option<T>)
        requires
            old(self).wf(),
        ensures
            final(self).wf(),
            final(self).spec_capacity() == old(self).spec_capacity(),
            old(self)@.len() == 0 ==> r is None && final(self)@ == old(self)@,
            old(self)@.len() > 0 ==> r == Some(old(self)@.last()) && final(self)@ == old(
                self,
            )@.drop_last(),
    {
        let r = self.data.pop();
        proof {
            if old(self)@.len() > 0 {
                assert(final(self)@ =~= old(self)@.drop_last());
            }
        }
        r
    }

    /// Grows a full buffer by the doubling policy (one slot from empty) and
    /// pre-sizes the element store to match.
    fn grow(&mut self)
        requires
            old(self).wf(),
            old(self).can_push(),
            old(self)@.len() == old(self).spec_capacity(),
        ensures
            final(self).wf(),
            final(self)@ == old(self)@,
            final(self).spec_capacity() > old(self).spec_capacity(),
            final(self).spec_capacity() == (if old(self).spec_capacity() == 0 {
                1int
            } else {
                2 * old(self).spec_capacity()
            }),
            old(self)@.len() < final(self).spec_capacity(),
    {
        self.buf.grow();
        let slack = self.buf.cap() - self.data.len();
        self.data.reserve(slack);
    }

    /// Inserts `elem` at `index`, shifting `[index, len)` one slot right.
    /// Inserting past the length is a contract violation and is excluded;
    /// inserting exactly at the length appends.
    pub fn insert(&mut self, index: usize, elem: T)
        requires
            old(self).wf(),
            old(self).can_push(),
            index <= old(self)@.len(),
        ensures
            final(self).wf(),
            final(self)@ == old(self)@.insert(index as int, elem),
            old(self)@.len() < old(self).spec_capacity() ==> final(self).spec_capacity()
                == old(self).spec_capacity(),
            old(self)@.len() == old(self).spec_capacity() ==> final(self).spec_capacity()
                > old(self).spec_capacity() && final(self).spec_capacity() == (if old(
                self,
            ).spec_capacity() == 0 {
                1int
            } else {
                2 * old(self).spec_capacity()
            }),
    {
        if self.data.len() == self.buf.cap() {
            self.grow();
        }
        self.data.insert(index, elem);
    }

    /// Removes and returns the element at `index`, shifting `[index + 1,
    /// len)` one slot left. Removing at or past the length is a contract
    /// violation and is excluded. The capacity is untouched.
    pub fn remove(&mut self, index: usize) -> (r: T)
        requires
            old(self).wf(),
            index < old(self)@.len(),
        ensures
            final(self).wf(),
            final(self).spec_capacity() == old(self).spec_capacity(),
            r == old(self)@[index as int],
            final(self)@ == old(self)@.remove(index as int),
    {
        self.data.remove(index)
    }

    /// Takes ownership of a plain vector's elements. The adopted buffer is
    /// recorded as holding exactly the element count (a zero-sized element
    /// type reports the sentinel capacity, as always).
    pub fn from_vec(value: Vec<T>) -> (v: Self)
        requires
            value@.len() <= isize::MAX as usize,
            size_of::<T>() != 0 ==> value@.len() * size_of::<T>() <= isize::MAX as usize,
        ensures
            v.wf(),
            v@ == value@,
            v.spec_capacity() == (if size_of::<T>() == 0 {
                isize::MAX as usize
            } else {
                value@.len() as usize
            }),
    {
        let buf = MyRawVec::with_capacity(value.len());
        MyVec { buf, data: value }
    }

    /// Hands the elements over as a plain vector, consuming the container.
    pub fn into_vec(self) -> (r: Vec<T>)
        ensures
            r@ == self@,
    {
        let MyVec { buf: _, data } = self;
        data
    }
}

impl<T: Copy> MyVec<T> {
    /// Appends every element of `other` in order, reserving the full extra
    /// room once up front when the slack is not enough.
    pub fn extend_from_slice(&mut self, other: &[T])
        requires
            old(self).wf(),
            old(self)@.len() + other@.len() <= isize::MAX as usize,
            size_of::<T>() != 0 && old(self)@.len() + other@.len() > old(self).spec_capacity()
                ==> (old(self)@.len() + other@.len()) * size_of::<T>() <= isize::MAX as usize,
        ensures
            final(self).wf(),
            final(self)@ == old(self)@ + other@,
            final(self).spec_capacity() == (if old(self)@.len() + other@.len() as int
                <= old(self).spec_capacity() {
                old(self).spec_capacity() as int
            } else {
                old(self)@.len() + other@.len() as int
            }),
    {
        let needs = other.len();
        let remain = self.buf.cap() - self.data.len();
        if needs > remain {
            self.reserve(needs);
        }
        let mut i: usize = 0;
        while i < other.len()
            invariant
                i <= other@.len(),
                self.buf_wf(),
                self.spec_capacity() == (if old(self)@.len() + other@.len() as int
                    <= old(self).spec_capacity() {
                    old(self).spec_capacity() as int
                } else {
                    old(self)@.len() + other@.len() as int
                }),
                old(self)@.len() + other@.len() <= self.spec_capacity(),
                self@ == old(self)@ + other@.subrange(0, i as int),
            decreases other@.len() - i,
        {
            let x = other[i];
            self.data.push(x);
            proof {
                assert(self@ =~= old(self)@ + other@.subrange(0, i + 1));
            }
            i = i + 1;
        }
        proof {
            assert(other@.subrange(0, other@.len() as int) =~= other@);
        }
    }

    /// A fresh vector holding a copy of `other`, with capacity exactly
    /// `other.len()`.
    pub fn from_slice(other: &[T]) -> (v: Self)
        requires
            other@.len() <= isize::MAX as usize,
            size_of::<T>() != 0 ==> other@.len() * size_of::<T>() <= isize::MAX as usize,
        ensures
            v.wf(),
            v@ == other@,
            v.spec_capacity() == (if size_of::<T>() == 0 {
                isize::MAX as usize
            } else {
                other@.len() as usize
            }),
    {
        let mut v = Self::with_capacity(other.len());
        v.extend_from_slice(other);
        proof {
            assert(v@ =~= other@);
        }
        v
    }

    /// A copy of the vector with the same elements, sized to exactly the
    /// source's length.
    pub fn clone(&self) -> (v: Self)
        requires
            self.wf(),
        ensures
            v.wf(),
            v@ == self@,
            v.spec_capacity() == (if size_of::<T>() == 0 {
                isize::MAX as usize
            } else {
                self@.len() as usize
            }),
    {
        proof {
            if size_of::<T>() != 0 {
                assert(self@.len() * size_of::<T>() <= self.spec_capacity() * size_of::<T>())
                    by (nonlinear_arith)
                    requires
                        self@.len() <= self.spec_capacity(),
                        size_of::<T>() >= 0,
                ;
            }
        }
        MyVec::from_slice(self.as_slice())
    }

    /// Overwrites this vector with a copy of `source`, reserving exactly
    /// `source.len()` slots first when the current buffer is smaller.
    pub fn clone_from(&mut self, source: &MyVec<T>)
        requires
            old(self).wf(),
            source.wf(),
        ensures
            final(self).wf(),
            final(self)@ == source@,
            final(self).spec_capacity() == (if source@.len() <= old(self).spec_capacity() {
                old(self).spec_capacity() as int
            } else {
                source@.len() as int
            }),
    {
        proof {
            if size_of::<T>() != 0 {
                assert(source@.len() * size_of::<T>() <= source.spec_capacity() * size_of::<T>())
                    by (nonlinear_arith)
                    requires
                        source@.len() <= source.spec_capacity(),
                        size_of::<T>() >= 0,
                ;
            }
        }
        if self.buf.cap() < source.len() {
            let n = source.len();
            self.buf.reserve_exact(n);
        }
        self.clear();
        self.extend_from_slice(source.as_slice());
        proof {
            assert(final(self)@ =~= source@);
        }
    }
}

/// Length/capacity law: at every observation point a well-formed vector's
/// length lies between zero and its capacity.
pub proof fn lemma_len_within_capacity<T>(v: &MyVec<T>)
    requires
        v.wf(),
    ensures
        0 <= v@.len() <= v.spec_capacity(),
{
}

/// The values that `k` successive pops return, in order: each pop takes the
/// last element of what is left.
pub open spec fn popped_values<T>(s: Seq<T>, k: nat) -> Seq<T>
    decreases k,
{
    if k == 0 || s.len() == 0 {
        Seq::empty()
    } else {
        seq![s.last()] + popped_values(s.drop_last(), (k - 1) as nat)
    }
}

/// What `k` successive pops leave behind.
pub open spec fn remaining_after_pops<T>(s: Seq<T>, k: nat) -> Seq<T>
    decreases k,
{
    if k == 0 || s.len() == 0 {
        s
    } else {
        remaining_after_pops(s.drop_last(), (k - 1) as nat)
    }
}

/// Round-trip law: pushing the elements of `xs` in order onto a vector
/// holding `s` and then popping the same number of times returns exactly
/// the pushed elements in reverse order, and leaves `s` behind. `push`
/// appends (`s + xs`) and each `pop` removes and returns the last element,
/// which is what `popped_values` and `remaining_after_pops` record.
pub proof fn lemma_push_pop_round_trip<T>(s: Seq<T>, xs: Seq<T>)
    ensures
        popped_values(s + xs, xs.len()) == xs.reverse(),
        remaining_after_pops(s + xs, xs.len()) == s,
    decreases xs.len(),
{
    if xs.len() == 0 {
        assert(s + xs =~= s);
        assert(xs.reverse() =~= Seq::<T>::empty());
    } else {
        let whole = s + xs;
        assert(whole.len() == s.len() + xs.len());
        assert(whole.last() == xs.last());
        assert(whole.drop_last() =~= s + xs.drop_last());
        lemma_push_pop_round_trip(s, xs.drop_last());
        assert(popped_values(whole, xs.len()) == seq![xs.last()] + xs.drop_last().reverse());
        assert(seq![xs.last()] + xs.drop_last().reverse() =~= xs.reverse());
    }
}

/// Insert/remove inverse law: removing at `i` immediately after inserting
/// `x` at `i` returns `x`'s slot to its pre-insert state, and the element
/// found at `i` in between is `x` itself.
pub proof fn lemma_insert_remove_inverse<T>(s: Seq<T>, i: int, x: T)
    requires
        0 <= i <= s.len(),
    ensures
        s.insert(i, x).remove(i) == s,
        s.insert(i, x)[i] == x,
{
    assert(s.insert(i, x).remove(i) =~= s);
}

/// Element-wise equality of two sequences under the element type's own
/// equality specification.
pub open spec fn seq_eq_by<T: PartialEq>(a: Seq<T>, b: Seq<T>) -> bool {
    a.len() == b.len() && (forall|i: int| 0 <= i < a.len() ==> #[trigger] a[i].eq_spec(&b[i]))
}

impl<T: PartialEq> PartialEq for MyVec<T> {
    /// Structural equality, defined over the logical element sequence
    /// alone — spare capacity plays no part.
    fn eq(&self, other: &Self) -> (r: bool) {
        if self.data.len() != other.data.len() {
            return false;
        }
        let mut i: usize = 0;
        while i < self.data.len()
            invariant
                i <= self@.len(),
                self@.len() == other@.len(),
                T::obeys_eq_spec() ==> (forall|j: int|
                    0 <= j < i ==> #[trigger] self@[j].eq_spec(&other@[j])),
            decreases self@.len() - i,
        {
            if !(self.data[i] == other.data[i]) {
                return false;
            }
            i = i + 1;
        }
        true
    }
}

impl<T: PartialEq + Eq> Eq for MyVec<T> {

}

impl<T: PartialEq> vstd::std_specs::cmp::PartialEqSpecImpl for MyVec<T> {
    open spec fn obeys_eq_spec() -> bool {
        T::obeys_eq_spec()
    }

    open spec fn eq_spec(&self, other: &Self) -> bool {
        seq_eq_by(self@, other@)
    }
}

/// Lexicographic comparison of two sequences under the element type's own
/// ordering specification: the first unequal pair decides; a strict prefix
/// orders before the longer sequence.
pub open spec fn seq_partial_cmp_by<T: PartialOrd>(a: Seq<T>, b: Seq<T>) -> Option<Ordering>
    decreases a.len(),
{
    if a.len() == 0 && b.len() == 0 {
        Some(Ordering::Equal)
    } else if a.len() == 0 {
        Some(Ordering::Less)
    } else if b.len() == 0 {
        Some(Ordering::Greater)
    } else {
        match a[0].partial_cmp_spec(&b[0]) {
            Option::None => None,
            Option::Some(Ordering::Equal) => seq_partial_cmp_by(a.drop_first(), b.drop_first()),
            Option::Some(o) => Some(o),
        }
    }
}

impl<T: PartialOrd> PartialOrd for MyVec<T> {
    /// Lexicographic ordering, defined over the logical element sequence
    /// alone — spare capacity plays no part.
    fn partial_cmp(&self, other: &Self) -> (r: Option<Ordering>) {
        let a_len = self.data.len();
        let b_len = other.data.len();
        let n = if a_len <= b_len {
            a_len
        } else {
            b_len
        };
        let mut i: usize = 0;
        proof {
            assert(self@.skip(0) =~= self@);
            assert(other@.skip(0) =~= other@);
        }
        while i < n
            invariant
                i <= n,
                n == (if self@.len() <= other@.len() {
                    self@.len() as int
                } else {
                    other@.len() as int
                }),
                T::obeys_partial_cmp_spec() ==> seq_partial_cmp_by(self@, other@)
                    == seq_partial_cmp_by(self@.skip(i as int), other@.skip(i as int)),
            decreases n - i,
        {
            let c = self.data[i].partial_cmp(&other.data[i]);
            proof {
                if T::obeys_partial_cmp_spec() {
                    let sa = self@.skip(i as int);
                    let sb = other@.skip(i as int);
                    assert(sa[0] == self@[i as int]);
                    assert(sb[0] == other@[i as int]);
                    assert(sa.drop_first() =~= self@.skip(i + 1));
                    assert(sb.drop_first() =~= other@.skip(i + 1));
                }
            }
            match c {
                Option::Some(Ordering::Equal) => {
                    i = i + 1;
                },
                _ => {
                    return c;
                },
            }
        }
        proof {
            if T::obeys_partial_cmp_spec() {
                assert(seq_partial_cmp_by(self@.skip(i as int), other@.skip(i as int))
                    == (if self@.len() == other@.len() {
                    Some(Ordering::Equal)
                } else if self@.len() < other@.len() {
                    Some(Ordering::Less)
                } else {
                    Some(Ordering::Greater)
                }));
            }
        }
        if a_len == b_len {
            Some(Ordering::Equal)
        } else if a_len < b_len {
            Some(Ordering::Less)
        } else {
            Some(Ordering::Greater)
        }
    }
}

impl<T: PartialOrd> vstd::std_specs::cmp::PartialOrdSpecImpl for MyVec<T> {
    open spec fn obeys_partial_cmp_spec() -> bool {
        T::obeys_partial_cmp_spec()
    }

    open spec fn partial_cmp_spec(&self, other: &Self) -> Option<Ordering> {
        seq_partial_cmp_by(self@, other@)
    }
}

} // verus!
