//! The buffer manager: owns the capacity bookkeeping of one vector buffer
//! and carries the whole growth policy — doubling, explicit reservation,
//! and the zero-sized-element sentinel. The element store itself lives in
//! the composing container, which performs the matching physical
//! reservations; this manager decides how large the buffer is allowed to
//! be and guarantees that its byte size never exceeds the platform's
//! signed-offset limit.
//!
//! A request that would push the byte size past that limit is a fatal
//! allocation error, not a recoverable one; every operation here excludes
//! such requests by precondition, so the verified code never reaches them.

use core::marker::PhantomData;
use vstd::layout::size_of;
use vstd::prelude::*;

verus! {

/// Capacity bookkeeping for a single buffer of `T`.
///
/// For a zero-sized element type the capacity is pinned at the sentinel
/// maximum (the signed-offset limit) from construction onward and no growth
/// ever happens; for any other element type the capacity starts at zero and
/// only ever grows.
#[derive(Debug)]
pub struct MyRawVec<T> {
    cap: usize,
    elem: PhantomData<T>,
}

impl<T> MyRawVec<T> {
    /// The number of elements the managed buffer can hold.
    pub closed spec fn spec_cap(&self) -> usize {
        self.cap
    }

    /// The capacity a freshly created buffer reports: the sentinel maximum
    /// for a zero-sized element type, zero otherwise.
    pub open spec fn initial_cap() -> usize {
        if size_of::<T>() == 0 {
            isize::MAX as usize
        } else {
            0
        }
    }

    /// The buffer manager's invariant: the capacity never exceeds the
    /// signed-offset limit, in elements and in bytes, and a zero-sized
    /// element type keeps the capacity at the sentinel maximum.
    pub open spec fn wf(&self) -> bool {
        &&& self.spec_cap() <= isize::MAX as usize
        &&& (size_of::<T>() == 0 ==> self.spec_cap() == isize::MAX as usize)
        &&& (size_of::<T>() != 0 ==> self.spec_cap() * size_of::<T>() <= isize::MAX as usize)
    }

    /// An empty buffer: no storage is reserved, and a zero-sized element
    /// type starts out at the sentinel capacity.
    pub fn new() -> (r: Self)
        ensures
            r.wf(),
            r.spec_cap() == Self::initial_cap(),
    {
        vstd::layout::layout_for_type_is_valid::<T>();
        let cap: usize = if core::mem::size_of::<T>() == 0 {
            isize::MAX as usize
        } else {
            0
        };
        MyRawVec { cap, elem: PhantomData }
    }

    /// The current capacity, in elements.
    pub fn cap(&self) -> (r: usize)
        ensures
            r == self.spec_cap(),
    {
        self.cap
    }

    /// Bookkeeping for a buffer of exactly `capacity` elements. A zero-sized
    /// element type keeps the sentinel capacity and reserves nothing. The
    /// caller keeps the request inside the byte limit; beyond it the request
    /// would be a fatal allocation failure.
    pub fn with_capacity(capacity: usize) -> (r: Self)
        requires
            size_of::<T>() != 0 ==> capacity * size_of::<T>() <= isize::MAX as usize,
        ensures
            r.wf(),
            r.spec_cap() == (if size_of::<T>() == 0 {
                isize::MAX as usize
            } else {
                capacity
            }),
    {
        let mut ret = Self::new();
        if core::mem::size_of::<T>() != 0 && capacity > 0 {
            proof {
                assert(capacity * size_of::<T>() >= capacity * 1 == capacity)
                    by (nonlinear_arith)
                    requires
                        size_of::<T>() >= 1,
                        capacity >= 0,
                ;
            }
            ret.cap = capacity;
        }
        ret
    }

    /// Doubles the capacity, or sets it to one element when none was
    /// reserved yet. Never called for a zero-sized element type, whose
    /// capacity already sits at the sentinel maximum; a doubling that would
    /// cross the byte limit is a fatal allocation failure and is excluded
    /// by precondition.
    pub fn grow(&mut self)
        requires
            old(self).wf(),
            size_of::<T>() != 0,
            old(self).spec_cap() > 0 ==> 2 * old(self).spec_cap() * size_of::<T>()
                <= isize::MAX as usize,
        ensures
            final(self).wf(),
            final(self).spec_cap() == (if old(self).spec_cap() == 0 {
                1int
            } else {
                2 * old(self).spec_cap()
            }),
            final(self).spec_cap() > old(self).spec_cap(),
    {
        vstd::layout::layout_for_type_is_valid::<T>();
        if self.cap == 0 {
            self.cap = 1;
        } else {
            proof {
                assert(2 * self.cap * size_of::<T>() >= 2 * self.cap * 1 == 2 * self.cap)
                    by (nonlinear_arith)
                    requires
                        size_of::<T>() >= 1,
                        self.cap >= 0,
                ;
            }
            self.cap = 2 * self.cap;
        }
        proof {
            assert(self.spec_cap() <= isize::MAX as usize);
            assert(size_of::<T>() != 0 ==> self.spec_cap() * size_of::<T>()
                <= isize::MAX as usize);
        }
    }

    /// Grows to exactly `exact_cap` when that exceeds the current capacity;
    /// otherwise leaves the buffer alone. The caller keeps the request at or
    /// under the signed-offset limit, even for a zero-sized element type.
    pub fn reserve_exact(&mut self, exact_cap: usize)
        requires
            old(self).wf(),
            exact_cap <= isize::MAX as usize,
            size_of::<T>() != 0 && exact_cap > old(self).spec_cap() ==> exact_cap * size_of::<T>()
                <= isize::MAX as usize,
        ensures
            final(self).wf(),
            final(self).spec_cap() == (if exact_cap <= old(self).spec_cap() {
                old(self).spec_cap()
            } else {
                exact_cap
            }),
            final(self).spec_cap() >= exact_cap,
    {
        if exact_cap <= self.cap {
            return;
        }
        self.cap = exact_cap;
    }
}

} // verus!
