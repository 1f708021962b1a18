//! Traits for indexed access into tuples.
use vstd::prelude::*;

mod private;

verus! {

/// Type-level `usize`.
///
/// Wrapping the number in a type keeps `const` arithmetic out of trait bounds:
/// the number itself is never used, only its identity as a slot position.
pub struct Index<const N: usize>;

/// Types that name a slot of an indexed tuple.
pub trait Indexed: private::Sealed {}

impl<const N: usize> Indexed for Index<N> {}

/// Get tuple value in specified position.
///
/// `slot` is the value stored at the position and `with_slot` the tuple with
/// that value replaced; together they describe what the two accessors do.
pub trait Get<N: Indexed>: Sized {
    type Output;

    /// The value stored at position `N`.
    spec fn slot(&self) -> Self::Output;

    /// The same tuple with the value at position `N` replaced by `v`.
    spec fn with_slot(&self, v: Self::Output) -> Self;

    fn get(&self) -> (r: &Self::Output)
        ensures
            *r == self.slot(),
    ;

    fn get_mut(&mut self) -> (r: &mut Self::Output)
        ensures
            *r == old(self).slot(),
            *final(self) == old(self).with_slot(*final(r)),
    ;

    /// Reading a slot gives back what was last written to it.
    proof fn lemma_slot_of_with_slot(&self, v: Self::Output)
        ensures
            self.with_slot(v).slot() == v,
    ;

    /// Writing back what a slot holds changes nothing.
    proof fn lemma_with_own_slot(&self)
        ensures
            self.with_slot(self.slot()) == *self,
    ;

    /// A second write to a slot replaces the first.
    proof fn lemma_with_slot_twice(&self, v: Self::Output, w: Self::Output)
        ensures
            self.with_slot(v).with_slot(w) == self.with_slot(w),
    ;
}

/// Put value into tuple at specified position.
pub trait Put<T, N: Indexed>: Sized {
    /// Resulting tuple type.
    type Output;

    /// Type of previously stored value.
    type Previous;

    /// The tuple with `t` stored at position `N`, and the value it replaced.
    spec fn placed(self, t: T) -> (Self::Output, Self::Previous);

    fn put(self, t: T) -> (r: (Self::Output, Self::Previous))
        ensures
            r == self.placed(t),
    ;

    /// After a put, the slot holds the value that was put in.
    proof fn lemma_slot_of_placed(self, t: T) where Self::Output: Get<N, Output = T>
        ensures
            self.placed(t).0.slot() == t,
    ;

    /// A put hands back what the slot held before.
    proof fn lemma_previous_of_placed(self, t: T) where Self: Get<N, Output = Self::Previous>
        ensures
            self.placed(t).1 == self.slot(),
    ;
}

} // verus!

verus! {

/// Two puts into the same position: the second replaces the first.
pub trait PutTwice<T, N: Indexed>: Put<T, N> where
    <Self as Put<T, N>>::Output: Put<T, N, Output = <Self as Put<T, N>>::Output>,
 {
    /// Putting `t` and then `u` leaves the same tuple as putting `u` alone.
    proof fn lemma_put_twice(self, t: T, u: T)
        ensures
            self.placed(t).0.placed(u).0 == self.placed(u).0,
    ;
}

/// Two puts into different positions `M` and `N`: their order does not matter.
pub trait PutCommute<X, Y, M: Indexed, N: Indexed>: Put<X, M> + Put<Y, N> where
    <Self as Put<X, M>>::Output: Put<Y, N>,
    <Self as Put<Y, N>>::Output: Put<
        X,
        M,
        Output = <<Self as Put<X, M>>::Output as Put<Y, N>>::Output,
    >,
 {
    /// Putting `x` then `y` leaves the same tuple as putting `y` then `x`.
    proof fn lemma_puts_commute(self, x: X, y: Y)
        ensures
            <<Self as Put<X, M>>::Output as Put<Y, N>>::placed(
                <Self as Put<X, M>>::placed(self, x).0,
                y,
            ).0 == <<Self as Put<Y, N>>::Output as Put<X, M>>::placed(
                <Self as Put<Y, N>>::placed(self, y).0,
                x,
            ).0,
    ;
}

} // verus!
