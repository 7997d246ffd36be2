//! The by-value cursor shared by the consuming iterator and the draining
//! iterator. Conceptually it is a pair of cursors that advance inward
//! from both ends of one contiguous region, each step handing out the
//! element it passes by value and leaving the slot behind it logically
//! uninitialized; iteration is over exactly when the cursors meet. Here the
//! cursor pair is represented by the region that still lies between the
//! two cursors: consuming from the front narrows it on the left, consuming
//! from the back narrows it on the right, and the remaining count is its
//! length.

use vstd::prelude::*;

verus! {

/// A doubly-movable by-value cursor over one contiguous region.
pub struct RawValIter<T> {
    region: Vec<T>,
}

impl<T> View for RawValIter<T> {
    type V = Seq<T>;

    closed spec fn view(&self) -> Seq<T> {
        self.region@
    }
}

impl<T> RawValIter<T> {
    /// A cursor pair spanning the whole of `region`.
    pub fn new(region: Vec<T>) -> (it: Self)
        ensures
            it@ == region@,
    {
        RawValIter { region }
    }

    /// Consumes one element from the front: the front cursor moves right
    /// and the element it passed is handed out by value. `None` exactly
    /// when the cursors have met.
    pub fn next(&mut self) -> (r: Option<T>)
        ensures
            old(self)@.len() == 0 ==> r is None && final(self)@ == old(self)@,
            old(self)@.len() > 0 ==> r == Some(old(self)@.first()) && final(self)@ == old(
                self,
            )@.drop_first(),
    {
        if self.region.len() == 0 {
            None
        } else {
            let r = self.region.remove(0);
            proof {
                assert(final(self)@ =~= old(self)@.drop_first());
            }
            Some(r)
        }
    }

    /// Consumes one element from the back: the back cursor moves left and
    /// hands out the element it passed by value. `None` exactly when the
    /// cursors have met.
    pub fn next_back(&mut self) -> (r: Option<T>)
        ensures
            old(self)@.len() == 0 ==> r is None && final(self)@ == old(self)@,
            old(self)@.len() > 0 ==> r == Some(old(self)@.last()) && final(self)@ == old(
                self,
            )@.drop_last(),
    {
        let r = self.region.pop();
        proof {
            if old(self)@.len() > 0 {
                assert(final(self)@ =~= old(self)@.drop_last());
            }
        }
        r
    }

    /// How many elements remain between the cursors.
    pub fn len(&self) -> (r: usize)
        ensures
            r == self@.len(),
    {
        self.region.len()
    }

    /// The exact-size hint: lower and upper bound both equal the remaining
    /// count.
    pub fn size_hint(&self) -> (r: (usize, Option<usize>))
        ensures
            r.0 == self@.len(),
            r.1 == Some(self@.len() as usize),
    {
        let n = self.region.len();
        (n, Some(n))
    }
}

} // verus!
