//! The draining iterator of the fixed-capacity container. It follows the
//! same shrink-first, restore-on-completion protocol as the growable
//! vector's drain: the container's logical length drops to zero the moment
//! the drain is created, so a drain that is discarded without being
//! finished leaves the container observably empty instead of exposing any
//! stale slot. Unlike the growable vector's drain it iterates by position
//! rather than through the shared cursor pair, narrowing the drained range
//! from the front or from the back until the two positions meet.

use super::inplace_vec::InplaceVec;
use super::slice::{lower_index, range, upper_index, valid_range, IndexBound};
use vstd::prelude::*;

verus! {

/// A by-value iterator over a drained range of a fixed-capacity container,
/// holding everything the container gave up.
pub struct Drain<const N: usize, T> {
    drained: Vec<T>,
    prefix: Vec<T>,
    tail: Vec<T>,
    before_len: usize,
    after_len: usize,
    old_len: usize,
}

impl<const N: usize, T> View for Drain<N, T> {
    type V = Seq<T>;

    closed spec fn view(&self) -> Seq<T> {
        self.drained@
    }
}

impl<const N: usize, T> Drain<N, T> {
    /// The elements kept before the drained range.
    pub closed spec fn spec_prefix(&self) -> Seq<T> {
        self.prefix@
    }

    /// The elements kept after the drained range.
    pub closed spec fn spec_tail(&self) -> Seq<T> {
        self.tail@
    }

    /// How many elements are kept before the drained range.
    pub closed spec fn spec_before_len(&self) -> usize {
        self.before_len
    }

    /// How many elements are kept after the drained range.
    pub closed spec fn spec_after_len(&self) -> usize {
        self.after_len
    }

    /// The container's length when the drain began.
    pub closed spec fn spec_old_len(&self) -> usize {
        self.old_len
    }

    /// The drain's bookkeeping invariant: the counters describe the kept
    /// segments, everything held here fits in the recorded old length, and
    /// the old length fits the fixed capacity.
    pub open spec fn wf(&self) -> bool {
        &&& self.spec_before_len() == self.spec_prefix().len()
        &&& self.spec_after_len() == self.spec_tail().len()
        &&& self.spec_before_len() + self@.len() + self.spec_after_len() <= self.spec_old_len()
        &&& self.spec_old_len() <= N
    }

    /// The next drained element from the front, `None` once the two
    /// positions have met. The kept segments and counters are untouched.
    pub fn next(&mut self) -> (r: Option<T>)
        ensures
            old(self)@.len() == 0 ==> r is None && final(self)@ == old(self)@,
            old(self)@.len() > 0 ==> r == Some(old(self)@.first()) && final(self)@ == old(
                self,
            )@.drop_first(),
            final(self).spec_prefix() == old(self).spec_prefix(),
            final(self).spec_tail() == old(self).spec_tail(),
            final(self).spec_before_len() == old(self).spec_before_len(),
            final(self).spec_after_len() == old(self).spec_after_len(),
            final(self).spec_old_len() == old(self).spec_old_len(),
            old(self).wf() ==> final(self).wf(),
    {
        if self.drained.len() == 0 {
            None
        } else {
            let r = self.drained.remove(0);
            proof {
                assert(final(self)@ =~= old(self)@.drop_first());
            }
            Some(r)
        }
    }

    /// The next drained element from the back, `None` once the two
    /// positions have met. The kept segments and counters are untouched.
    pub fn next_back(&mut self) -> (r: Option<T>)
        ensures
            old(self)@.len() == 0 ==> r is None && final(self)@ == old(self)@,
            old(self)@.len() > 0 ==> r == Some(old(self)@.last()) && final(self)@ == old(
                self,
            )@.drop_last(),
            final(self).spec_prefix() == old(self).spec_prefix(),
            final(self).spec_tail() == old(self).spec_tail(),
            final(self).spec_before_len() == old(self).spec_before_len(),
            final(self).spec_after_len() == old(self).spec_after_len(),
            final(self).spec_old_len() == old(self).spec_old_len(),
            old(self).wf() ==> final(self).wf(),
    {
        let r = self.drained.pop();
        proof {
            if old(self)@.len() > 0 {
                assert(final(self)@ =~= old(self)@.drop_last());
            }
        }
        r
    }

    /// How many drained elements are still to be yielded.
    pub fn len(&self) -> (r: usize)
        ensures
            r == self@.len(),
    {
        self.drained.len()
    }

    /// The exact-size hint: both bounds equal the remaining count.
    pub fn size_hint(&self) -> (r: (usize, Option<usize>))
        ensures
            r.0 == self@.len(),
            r.1 == Some(self@.len() as usize),
    {
        let n = self.drained.len();
        (n, Some(n))
    }

    /// Closes the drain: any unyielded drained elements are released, the
    /// kept tail is shifted down against the kept prefix, and the
    /// container's length is restored to exactly the survivors. The
    /// container handed back must still be in the emptied state the drain
    /// left it in.
    pub fn finish(self, vec: &mut InplaceVec<N, T>)
        requires
            old(vec).wf(),
            old(vec)@ == Seq::<T>::empty(),
            self.wf(),
        ensures
            final(vec).wf(),
            final(vec)@ == self.spec_prefix() + self.spec_tail(),
            final(vec)@.len() == self.spec_before_len() + self.spec_after_len(),
    {
        let Drain { drained: _, mut prefix, mut tail, .. } = self;
        vec.buf.append(&mut prefix);
        vec.buf.append(&mut tail);
        proof {
            assert(Seq::<T>::empty() + self.spec_prefix() + self.spec_tail()
                =~= self.spec_prefix() + self.spec_tail());
        }
    }
}

impl<const N: usize, T> InplaceVec<N, T> {
    /// Begins draining the requested range: resolves it against the
    /// current length, takes the drained elements out, and sets the
    /// container's length to zero at once, before anything is yielded. If
    /// the returned drain is discarded without `finish`, the container
    /// therefore stays observably empty.
    pub fn drain(&mut self, lower: IndexBound, upper: IndexBound) -> (d: Drain<N, T>)
        requires
            old(self).wf(),
            valid_range(lower, upper, old(self)@.len() as int),
        ensures
            final(self).wf(),
            final(self)@ == Seq::<T>::empty(),
            d.wf(),
            d@ == old(self)@.subrange(
                lower_index(lower),
                upper_index(upper, old(self)@.len() as int),
            ),
            d.spec_prefix() == old(self)@.subrange(0, lower_index(lower)),
            d.spec_tail() == old(self)@.subrange(
                upper_index(upper, old(self)@.len() as int),
                old(self)@.len() as int,
            ),
            d.spec_before_len() == lower_index(lower),
            d.spec_after_len() == old(self)@.len() - upper_index(
                upper,
                old(self)@.len() as int,
            ),
            d.spec_old_len() == old(self)@.len(),
    {
        let old_len = self.buf.len();
        let (start, end) = range(lower, upper, old_len);
        let before_len = start;
        let after_len = old_len - end;

        // Shrink first: from here on the container reports length zero.
        let mut rest = self.buf.split_off(0);
        let tail = rest.split_off(end);
        let drained = rest.split_off(start);

        Drain { drained, prefix: rest, tail, before_len, after_len, old_len }
    }
}

} // verus!
