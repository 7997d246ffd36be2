//! The container family: the growable vector and its buffer manager, the
//! fixed-capacity in-place vector, the shared by-value cursor, the draining
//! and consuming iterators of both containers, and the range normalizer.

pub mod inplace_drain;
pub mod inplace_into_iter;
pub mod inplace_vec;
pub mod raw_val_iter;
pub mod raw_vec;
pub mod slice;
pub mod vec;
pub mod vec_drain;
pub mod vec_into_iter;
