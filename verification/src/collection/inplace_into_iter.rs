//! The consuming iterator of the fixed-capacity container. It takes the
//! whole buffer out of the container and iterates by position, narrowing
//! the remaining range from the front or from the back until the two
//! positions meet; whatever has not been yielded is released together
//! with the iterator.

use super::inplace_vec::InplaceVec;
use vstd::prelude::*;

verus! {

/// A by-value iterator that owns what is left of a consumed
/// fixed-capacity container.
pub struct IntoIter<const N: usize, T> {
    items: Vec<T>,
}

impl<const N: usize, T> View for IntoIter<N, T> {
    type V = Seq<T>;

    closed spec fn view(&self) -> Seq<T> {
        self.items@
    }
}

impl<const N: usize, T> InplaceVec<N, T> {
    /// Converts the container into a by-value iterator over all its
    /// elements, moving the buffer out so the container's own cleanup no
    /// longer applies to it.
    pub fn into_iter(self) -> (it: IntoIter<N, T>)
        ensures
            it@ == self@,
    {
        let InplaceVec { buf } = self;
        IntoIter { items: buf }
    }
}

impl<const N: usize, T> IntoIter<N, T> {
    /// The next element from the front, `None` once the positions meet.
    pub fn next(&mut self) -> (r: Option<T>)
        ensures
            old(self)@.len() == 0 ==> r is None && final(self)@ == old(self)@,
            old(self)@.len() > 0 ==> r == Some(old(self)@.first()) && final(self)@ == old(
                self,
            )@.drop_first(),
    {
        if self.items.len() == 0 {
            None
        } else {
            let r = self.items.remove(0);
            proof {
                assert(final(self)@ =~= old(self)@.drop_first());
            }
            Some(r)
        }
    }

    /// The next element from the back, `None` once the positions meet.
    pub fn next_back(&mut self) -> (r: Option<T>)
        ensures
            old(self)@.len() == 0 ==> r is None && final(self)@ == old(self)@,
            old(self)@.len() > 0 ==> r == Some(old(self)@.last()) && final(self)@ == old(
                self,
            )@.drop_last(),
    {
        let r = self.items.pop();
        proof {
            if old(self)@.len() > 0 {
                assert(final(self)@ =~= old(self)@.drop_last());
            }
        }
        r
    }

    /// How many elements are still to be yielded.
    pub fn len(&self) -> (r: usize)
        ensures
            r == self@.len(),
    {
        self.items.len()
    }

    /// The exact-size hint: both bounds equal the remaining count.
    pub fn size_hint(&self) -> (r: (usize, Option<usize>))
        ensures
            r.0 == self@.len(),
            r.1 == Some(self@.len() as usize),
    {
        let n = self.items.len();
        (n, Some(n))
    }
}

} // verus!
