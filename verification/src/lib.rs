//! A growable contiguous owned-sequence container (a vector) together with a
//! fixed-capacity sibling, a range normalizer, and by-value iteration over
//! both containers, including a draining iterator with an explicit
//! shrink-first, restore-on-completion protocol.

pub mod collection;
