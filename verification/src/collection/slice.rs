//! The range normalizer: maps a partially-bounded range request onto a
//! concrete half-open index range inside `0..end`. Requests whose start lies
//! past their end, or whose end lies past the region, are bounds violations;
//! the container operations that consume this interface rule them out up
//! front, so the normalizer itself is total on the inputs it admits.

use vstd::prelude::*;

verus! {

/// One edge of a requested index range: left open, or closed at an index,
/// or open at an index.
#[derive(Clone, Copy, Debug, PartialEq, Eq, Structural)]
pub enum IndexBound {
    Unbounded,
    Included(usize),
    Excluded(usize),
}

/// The concrete start index a lower edge resolves to.
pub open spec fn lower_index(bound: IndexBound) -> int {
    match bound {
        IndexBound::Unbounded => 0,
        IndexBound::Included(l) => l as int,
        IndexBound::Excluded(l) => l as int + 1,
    }
}

/// The concrete end index (exclusive) an upper edge resolves to, inside a
/// region of length `end`.
pub open spec fn upper_index(bound: IndexBound, end: int) -> int {
    match bound {
        IndexBound::Unbounded => end,
        IndexBound::Included(u) => u as int + 1,
        IndexBound::Excluded(u) => u as int,
    }
}

/// Whether the requested edges describe a well-formed subrange of `0..end`:
/// the start does not lie past the end, and the end does not lie past the
/// region's length.
pub open spec fn valid_range(lower: IndexBound, upper: IndexBound, end: int) -> bool {
    0 <= lower_index(lower) <= upper_index(upper, end) <= end
}

/// Resolves a partially-bounded range request against the region `0..end`
/// and returns the concrete half-open range `[r.0, r.1)`.
pub fn range(lower: IndexBound, upper: IndexBound, end: usize) -> (r: (usize, usize))
    requires
        valid_range(lower, upper, end as int),
    ensures
        r.0 == lower_index(lower),
        r.1 == upper_index(upper, end as int),
        r.0 <= r.1 <= end,
{
    let left: usize = match lower {
        IndexBound::Unbounded => 0,
        IndexBound::Included(l) => l,
        IndexBound::Excluded(l) => l + 1,
    };

    let right: usize = match upper {
        IndexBound::Unbounded => end,
        IndexBound::Included(u) => u + 1,
        IndexBound::Excluded(u) => u,
    };

    (left, right)
}

} // verus!
