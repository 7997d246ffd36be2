//! The draining iterator of the growable vector. Creating it resolves the
//! requested range through the range normalizer, records how many elements
//! are kept before and after the drained range, and — before anything is
//! yielded — sets the vector's logical length to zero. That is the
//! shrink-first, restore-on-completion protocol: a drain that is discarded
//! without being finished leaves the vector observably empty, so no stale
//! slot is ever reachable through it; the kept elements are given up
//! rather than any memory safety (leak amplification). Finishing the drain
//! closes the gap by moving the kept tail down against the kept prefix and
//! restores the exact surviving length.

use super::raw_val_iter::RawValIter;
use super::slice::{lower_index, range, upper_index, valid_range, IndexBound};
use super::vec::MyVec;
use vstd::prelude::*;

verus! {

/// A by-value iterator over a drained range, holding everything the
/// source vector gave up: the range still to be yielded, the kept prefix
/// and tail, and the bookkeeping needed to restore the vector.
pub struct Drain<T> {
    iter: RawValIter<T>,
    prefix: Vec<T>,
    tail: Vec<T>,
    before_len: usize,
    after_len: usize,
    old_len: usize,
}

impl<T> View for Drain<T> {
    type V = Seq<T>;

    closed spec fn view(&self) -> Seq<T> {
        self.iter@
    }
}

impl<T> Drain<T> {
    /// The elements kept before the drained range.
    pub closed spec fn spec_prefix(&self) -> Seq<T> {
        self.prefix@
    }

    /// The elements kept after the drained range.
    pub closed spec fn spec_tail(&self) -> Seq<T> {
        self.tail@
    }

    /// How many elements are kept before the drained range.
    pub closed spec fn spec_before_len(&self) -> usize {
        self.before_len
    }

    /// How many elements are kept after the drained range.
    pub closed spec fn spec_after_len(&self) -> usize {
        self.after_len
    }

    /// The source vector's length when the drain began.
    pub closed spec fn spec_old_len(&self) -> usize {
        self.old_len
    }

    /// The drain's bookkeeping invariant: the counters describe the kept
    /// segments, and everything held here fits in the recorded old length.
    pub open spec fn wf(&self) -> bool {
        &&& self.spec_before_len() == self.spec_prefix().len()
        &&& self.spec_after_len() == self.spec_tail().len()
        &&& self.spec_before_len() + self@.len() + self.spec_after_len() <= self.spec_old_len()
    }

    /// The next drained element from the front, `None` once the range is
    /// exhausted. The kept segments and counters are untouched.
    pub fn next(&mut self) -> (r: Option<T>)
        ensures
            old(self)@.len() == 0 ==> r is None && final(self)@ == old(self)@,
            old(self)@.len() > 0 ==> r == Some(old(self)@.first()) && final(self)@ == old(
                self,
            )@.drop_first(),
            final(self).spec_prefix() == old(self).spec_prefix(),
            final(self).spec_tail() == old(self).spec_tail(),
            final(self).spec_before_len() == old(self).spec_before_len(),
            final(self).spec_after_len() == old(self).spec_after_len(),
            final(self).spec_old_len() == old(self).spec_old_len(),
            old(self).wf() ==> final(self).wf(),
    {
        self.iter.next()
    }

    /// The next drained element from the back, `None` once the range is
    /// exhausted. The kept segments and counters are untouched.
    pub fn next_back(&mut self) -> (r: Option<T>)
        ensures
            old(self)@.len() == 0 ==> r is None && final(self)@ == old(self)@,
            old(self)@.len() > 0 ==> r == Some(old(self)@.last()) && final(self)@ == old(
                self,
            )@.drop_last(),
            final(self).spec_prefix() == old(self).spec_prefix(),
            final(self).spec_tail() == old(self).spec_tail(),
            final(self).spec_before_len() == old(self).spec_before_len(),
            final(self).spec_after_len() == old(self).spec_after_len(),
            final(self).spec_old_len() == old(self).spec_old_len(),
            old(self).wf() ==> final(self).wf(),
    {
        self.iter.next_back()
    }

    /// How many drained elements are still to be yielded.
    pub fn len(&self) -> (r: usize)
        ensures
            r == self@.len(),
    {
        self.iter.len()
    }

    /// The exact-size hint: both bounds equal the remaining count.
    pub fn size_hint(&self) -> (r: (usize, Option<usize>))
        ensures
            r.0 == self@.len(),
            r.1 == Some(self@.len() as usize),
    {
        self.iter.size_hint()
    }

    /// Closes the drain: any unyielded drained elements are released, the
    /// kept tail is shifted down against the kept prefix, and the vector's
    /// length is restored to exactly the survivors. This is the explicit
    /// completion step of the shrink-first protocol — the restore that a
    /// scoped destructor would perform — and the vector handed back must
    /// still be in the emptied state the drain left it in.
    pub fn finish(self, vec: &mut MyVec<T>)
        requires
            old(vec).wf(),
            old(vec)@ == Seq::<T>::empty(),
            self.wf(),
            self.spec_before_len() + self.spec_after_len() <= old(vec).spec_capacity(),
        ensures
            final(vec).wf(),
            final(vec)@ == self.spec_prefix() + self.spec_tail(),
            final(vec)@.len() == self.spec_before_len() + self.spec_after_len(),
            final(vec).spec_capacity() == old(vec).spec_capacity(),
    {
        let Drain { iter: _, mut prefix, mut tail, .. } = self;
        vec.data.append(&mut prefix);
        vec.data.append(&mut tail);
        proof {
            assert(Seq::<T>::empty() + self.spec_prefix() + self.spec_tail()
                =~= self.spec_prefix() + self.spec_tail());
        }
    }
}

impl<T> MyVec<T> {
    /// Begins draining the requested range: resolves it against the current
    /// length, takes the drained elements out, and sets the vector's length
    /// to zero at once, before anything is yielded. If the returned drain
    /// is discarded without `finish`, the vector therefore stays observably
    /// empty — every element is given up, none is ever reachable again.
    pub fn drain(&mut self, lower: IndexBound, upper: IndexBound) -> (d: Drain<T>)
        requires
            old(self).wf(),
            valid_range(lower, upper, old(self)@.len() as int),
        ensures
            final(self).wf(),
            final(self)@ == Seq::<T>::empty(),
            final(self).spec_capacity() == old(self).spec_capacity(),
            d.wf(),
            d@ == old(self)@.subrange(
                lower_index(lower),
                upper_index(upper, old(self)@.len() as int),
            ),
            d.spec_prefix() == old(self)@.subrange(0, lower_index(lower)),
            d.spec_tail() == old(self)@.subrange(
                upper_index(upper, old(self)@.len() as int),
                old(self)@.len() as int,
            ),
            d.spec_before_len() == lower_index(lower),
            d.spec_after_len() == old(self)@.len() - upper_index(
                upper,
                old(self)@.len() as int,
            ),
            d.spec_old_len() == old(self)@.len(),
    {
        let old_len = self.data.len();
        let (start, end) = range(lower, upper, old_len);
        let before_len = start;
        let after_len = old_len - end;

        // Shrink first: from here on the vector reports length zero.
        let mut rest = self.data.split_off(0);
        let tail = rest.split_off(end);
        let drained = rest.split_off(start);

        Drain {
            iter: RawValIter::new(drained),
            prefix: rest,
            tail,
            before_len,
            after_len,
            old_len,
        }
    }
}

/// Drain partition law: the part before a drained range, the range itself,
/// and the part after it together make up the original contents — so
/// yielding the drained range to completion and keeping the rest accounts
/// for every original element exactly once.
pub proof fn lemma_drain_partition<T>(s: Seq<T>, a: int, b: int)
    requires
        0 <= a <= b <= s.len(),
    ensures
        s.subrange(0, a) + s.subrange(a, b) + s.subrange(b, s.len() as int) == s,
{
    assert(s.subrange(0, a) + s.subrange(a, b) + s.subrange(b, s.len() as int) =~= s);
}

} // verus!
