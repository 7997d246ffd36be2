//! The consuming iterator of the growable vector: it takes ownership of
//! the vector's buffer — so the allocation's lifetime follows the iterator
//! rather than the vector — and drives the shared by-value cursor over the
//! whole initialized region. Elements not yet yielded are released
//! together with the iterator itself.

use super::raw_val_iter::RawValIter;
use super::raw_vec::MyRawVec;
use super::vec::MyVec;
use vstd::prelude::*;

verus! {

/// A by-value iterator that owns what is left of a consumed vector.
pub struct IntoIter<T> {
    _buf: MyRawVec<T>,
    iter: RawValIter<T>,
}

impl<T> View for IntoIter<T> {
    type V = Seq<T>;

    closed spec fn view(&self) -> Seq<T> {
        self.iter@
    }
}

impl<T> MyVec<T> {
    /// Converts the vector into a by-value iterator over all its elements,
    /// moving the buffer bookkeeping along with them.
    pub fn into_iter(self) -> (it: IntoIter<T>)
        ensures
            it@ == self@,
    {
        let MyVec { buf, data } = self;
        IntoIter { _buf: buf, iter: RawValIter::new(data) }
    }
}

impl<T> IntoIter<T> {
    /// The next element from the front, `None` once the cursors have met.
    pub fn next(&mut self) -> (r: Option<T>)
        ensures
            old(self)@.len() == 0 ==> r is None && final(self)@ == old(self)@,
            old(self)@.len() > 0 ==> r == Some(old(self)@.first()) && final(self)@ == old(
                self,
            )@.drop_first(),
    {
        self.iter.next()
    }

    /// The next element from the back, `None` once the cursors have met.
    pub fn next_back(&mut self) -> (r: Option<T>)
        ensures
            old(self)@.len() == 0 ==> r is None && final(self)@ == old(self)@,
            old(self)@.len() > 0 ==> r == Some(old(self)@.last()) && final(self)@ == old(
                self,
            )@.drop_last(),
    {
        self.iter.next_back()
    }

    /// How many elements are still to be yielded.
    pub fn len(&self) -> (r: usize)
        ensures
            r == self@.len(),
    {
        self.iter.len()
    }

    /// The exact-size hint: both bounds equal the remaining count.
    pub fn size_hint(&self) -> (r: (usize, Option<usize>))
        ensures
            r.0 == self@.len(),
            r.1 == Some(self@.len() as usize),
    {
        self.iter.size_hint()
    }
}

} // verus!
