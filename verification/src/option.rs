//! Type-level `Option`.
//!
//! `Nothing` and `Just<T>` play the parts of `None` and `Some(T)`.
//! They implement most context-related operations to make integration smoother.
use vstd::prelude::*;

use crate::ops::{AsPermissionOp, Coerce, CoerceIdentity, CoerceTwice, InverseOp, LimitBy, LimitByOp, Reborrow, Unify, UnifyOp};

verus! {

/// Type-level `None`: an empty slot.
#[derive(Copy, Clone)]
pub struct Nothing;

/// Type-level `Some`: a slot holding a `T`.
#[derive(Copy, Clone)]
pub struct Just<T>(pub T);

/// Type-level `or`: the first present option wins.
pub trait OrF<Other> {
    type Output;
}

pub type Or<A, B> = <A as OrF<B>>::Output;

impl OrF<Nothing> for Nothing {
    type Output = Nothing;
}

impl<T> OrF<Just<T>> for Nothing {
    type Output = Just<T>;
}

impl<T> OrF<Nothing> for Just<T> {
    type Output = Self;
}

impl<T, U> OrF<Just<U>> for Just<T> {
    type Output = Self;
}

/// Type-level function from `T` to `Apply`.
pub trait Mapper<T> {
    type Apply;
}

/// Type-level `map` over an option.
pub trait MapOp<M> {
    type Output;
}

impl<M> MapOp<M> for Nothing {
    type Output = Nothing;
}

impl<M, T> MapOp<M> for Just<T> where M: Mapper<T> {
    type Output = Just<<M as Mapper<T>>::Apply>;
}

pub type Mapped<Op, M> = <Op as MapOp<M>>::Output;

impl<'s> Reborrow<'s> for Nothing {
    type Output = Nothing;

    open spec fn reborrowed(before: Nothing, out: Nothing) -> bool {
        true
    }

    open spec fn kept(before: Nothing, after: Nothing) -> bool {
        after == before
    }

    fn reborrow(&'s mut self) -> (out: Nothing) {
        Nothing
    }
}

impl<'s, T> Reborrow<'s> for Just<T> where T: Reborrow<'s> {
    type Output = Just<<T as Reborrow<'s>>::Output>;

    open spec fn reborrowed(before: Self, out: Self::Output) -> bool {
        T::reborrowed(before.0, out.0)
    }

    open spec fn kept(before: Self, after: Self) -> bool {
        T::kept(before.0, after.0)
    }

    fn reborrow(&'s mut self) -> (out: Self::Output) {
        Just(self.0.reborrow())
    }
}

impl UnifyOp<Nothing> for Nothing {
    type Output = Self;
}

impl<T> UnifyOp<Just<T>> for Nothing {
    type Output = Just<T>;
}

impl<T> UnifyOp<Nothing> for Just<T> {
    type Output = Self;
}

impl<T, U> UnifyOp<Just<U>> for Just<T> where T: UnifyOp<U> {
    type Output = Just<Unify<(T, U)>>;
}

impl Coerce<Nothing> for Nothing {
    open spec fn coerces_to(self, other: Nothing) -> bool {
        true
    }

    open spec fn gives_up(self, other: Nothing) -> bool {
        false
    }

    fn coerce(self) -> (r: Nothing) {
        Nothing
    }
}

impl<T> Coerce<Nothing> for Just<T> {
    open spec fn coerces_to(self, other: Nothing) -> bool {
        true
    }

    open spec fn gives_up(self, other: Nothing) -> bool {
        true
    }

    fn coerce(self) -> (r: Nothing) {
        Nothing
    }
}

impl<T, U> Coerce<Just<U>> for Just<T> where T: Coerce<U> {
    open spec fn coerces_to(self, other: Just<U>) -> bool {
        self.0.coerces_to(other.0)
    }

    open spec fn gives_up(self, other: Just<U>) -> bool {
        false
    }

    fn coerce(self) -> (r: Just<U>) {
        Just(self.0.coerce())
    }
}

impl CoerceIdentity for Nothing {
    proof fn lemma_coerce_identity(self, other: Nothing) {
    }
}

impl<T> CoerceIdentity for Just<T> where T: CoerceIdentity {
    proof fn lemma_coerce_identity(self, other: Just<T>) {
        self.0.lemma_coerce_identity(other.0);
    }
}

impl CoerceTwice<Nothing, Nothing> for Nothing {
    proof fn lemma_coerce_twice(self, mid: Nothing, target: Nothing, direct: Nothing) {
    }
}

impl<T> CoerceTwice<Nothing, Nothing> for Just<T> {
    proof fn lemma_coerce_twice(self, mid: Nothing, target: Nothing, direct: Nothing) {
    }
}

impl<T, U> CoerceTwice<Just<U>, Nothing> for Just<T> where T: Coerce<U> {
    proof fn lemma_coerce_twice(self, mid: Just<U>, target: Nothing, direct: Nothing) {
    }
}

impl<T, U, V> CoerceTwice<Just<U>, Just<V>> for Just<T> where
    T: CoerceTwice<U, V>,
    U: Coerce<V>,
 {
    proof fn lemma_coerce_twice(self, mid: Just<U>, target: Just<V>, direct: Just<V>) {
        self.0.lemma_coerce_twice(mid.0, target.0, direct.0);
    }
}

impl LimitByOp<Nothing> for Nothing {
    type Output = Self;
}

impl<T> LimitByOp<Just<T>> for Nothing {
    type Output = Self;
}

impl<T> LimitByOp<Nothing> for Just<T> {
    type Output = Self;
}

impl<T, U> LimitByOp<Just<U>> for Just<T> where T: LimitByOp<U> {
    type Output = LimitBy<T, U>;
}

impl AsPermissionOp for Nothing {
    type Output = Nothing;
}

impl<T> AsPermissionOp for Just<T> where T: AsPermissionOp {
    type Output = Just<<T as AsPermissionOp>::Output>;
}

impl InverseOp for Nothing {
    type Output = Nothing;
}

impl<T> InverseOp for Just<T> where T: InverseOp {
    type Output = Just<<T as InverseOp>::Output>;
}

} // verus!
