//! Lifetime manipulation utilities.
use vstd::prelude::*;

use crate::indexed_tuple::{Index, Indexed};
use crate::Capability;
use std::marker::PhantomData;

verus! {

/// Apply lifetime to a type.
///
/// This is a limited form of type constructor: `Apply` is the type that
/// results from applying `'a` to `T`.
/// It is good enough for in-library use,
/// but you will likely have to reimplement it for use outside.
pub trait Applicator<'a, T: ?Sized + 'a> {
    type Apply;
}

/// Pick the lifetime slot `I` and apply it through `R` to `T`.
pub trait Choose<R, T, I> where T: ?Sized, I: Indexed {
    type Output;
}

/// Four lifetime slots, one per capability index.
pub struct LifetimeStorage<'_0, '_1, '_2, '_3>(
    PhantomData<&'_0 ()>,
    PhantomData<&'_1 ()>,
    PhantomData<&'_2 ()>,
    PhantomData<&'_3 ()>,
);

impl<'_0, '_1, '_2, '_3, R, T> Choose<R, T, Index<0>> for LifetimeStorage<'_0, '_1, '_2, '_3> where
    R: Applicator<'_0, T>,
    T: ?Sized + '_0,
 {
    type Output = <R as Applicator<'_0, T>>::Apply;
}

impl<'_0, '_1, '_2, '_3, R, T> Choose<R, T, Index<1>> for LifetimeStorage<'_0, '_1, '_2, '_3> where
    R: Applicator<'_1, T>,
    T: ?Sized + '_1,
 {
    type Output = <R as Applicator<'_1, T>>::Apply;
}

impl<'_0, '_1, '_2, '_3, R, T> Choose<R, T, Index<2>> for LifetimeStorage<'_0, '_1, '_2, '_3> where
    R: Applicator<'_2, T>,
    T: ?Sized + '_2,
 {
    type Output = <R as Applicator<'_2, T>>::Apply;
}

impl<'_0, '_1, '_2, '_3, R, T> Choose<R, T, Index<3>> for LifetimeStorage<'_0, '_1, '_2, '_3> where
    R: Applicator<'_3, T>,
    T: ?Sized + '_3,
 {
    type Output = <R as Applicator<'_3, T>>::Apply;
}

/// Pick the lifetime slot that belongs to capability `C`.
pub trait Selection<R, C, T> where C: Capability + ?Sized, T: ?Sized {
    type Output;
}

impl<'_0, '_1, '_2, '_3, R, C, T> Selection<R, C, T> for LifetimeStorage<'_0, '_1, '_2, '_3> where
    T: ?Sized,
    C: Capability + ?Sized,
    Self: Choose<R, T, <C as Capability>::Index>,
 {
    type Output = <Self as Choose<R, T, <C as Capability>::Index>>::Output;
}

/// Select appropriate lifetime and construct reference to capability with it.
///
/// Commonly, `R` will be either [`Shared`](crate::reference::Shared) or
/// [`Mutable`](crate::reference::Mutable), but any [`Applicator`] is accepted.
/// `Select<'_0, '_1, '_2, '_3, Shared, C>` is `&'_0 C` for a capability `C`
/// with index 0.
pub type Select<'_0, '_1, '_2, '_3, R, C> = <LifetimeStorage<
    '_0,
    '_1,
    '_2,
    '_3,
> as Selection<R, C, C>>::Output;

/// Select appropriate lifetime and construct reference to `T` with it.
///
/// `SelectT<'_0, '_1, '_2, '_3, Mutable, str, C>` is `&'_0 mut str` for a
/// capability `C` with index 0.
pub type SelectT<'_0, '_1, '_2, '_3, R, T, C> = <LifetimeStorage<
    '_0,
    '_1,
    '_2,
    '_3,
> as Selection<R, C, T>>::Output;

} // verus!
