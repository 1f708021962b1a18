use vstd::prelude::*;

verus! {

/// Marker that closes [`Indexed`](super::Indexed) to the indices of this crate.
pub trait Sealed {}

impl<const N: usize> Sealed for super::Index<N> {}

} // verus!
