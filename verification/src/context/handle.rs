//! Implementation of `Handle` which is a wrapper around references.
use vstd::prelude::*;

use crate::ops::{AsPermissionOp, Coerce, CoerceIdentity, CoerceTwice, LimitByOp, Reborrow, UnifyOp};
use crate::option::{Just, Nothing};
use crate::reference::{Mutable, Shared};

verus! {

/// A wrapper around a reference to a capability.
///
/// A handle to a shared reference is `Copy`, so a context that holds only
/// shared references can be copied and handed to several calls.
#[derive(Copy, Clone)]
pub struct Handle<T>(T);

pub type HandleRef<'a, T> = Handle<&'a T>;

pub type HandleMut<'a, T> = Handle<&'a mut T>;

impl<T> Handle<T> {
    /// The wrapped value.
    pub closed spec fn inner(self) -> T {
        self.0
    }

    /// The handle that wraps `t`.
    pub closed spec fn wrap(t: T) -> Self {
        Handle(t)
    }

    /// A handle is its wrapped value, and nothing else.
    pub broadcast proof fn lemma_wrap_inner(t: T)
        ensures
            #[trigger] Self::wrap(t).inner() == t,
    {
    }

    /// Two handles that wrap the same value are equal.
    pub broadcast proof fn lemma_inner_wrap(h: Self)
        ensures
            #[trigger] Self::wrap(h.inner()) == h,
    {
    }

    /// Once a handle is done with, so is the reference it wraps.
    pub broadcast proof fn lemma_resolved_inner(h: Self)
        ensures
            #[trigger] has_resolved(h) ==> has_resolved(h.inner()),
    {
    }

    pub fn new(t: T) -> (h: Self)
        ensures
            h == Self::wrap(t),
            h.inner() == t,
    {
        Handle(t)
    }
}

pub broadcast group group_handle {
    Handle::lemma_wrap_inner,
    Handle::lemma_inner_wrap,
    Handle::lemma_resolved_inner,
}

impl<'a, T: ?Sized + 'a> Handle<&'a T> {
    pub fn as_ref(&self) -> (r: &'a T)
        ensures
            r == self.inner(),
    {
        self.0
    }
}

impl<'a, T: ?Sized + 'a> Handle<&'a mut T> {
    pub fn as_mut(&mut self) -> (r: &mut T)
        ensures
            &*r == &*old(self).inner(),
            &*final(self).inner() == &*final(r),
            &*final(final(self).inner()) == &*final(old(self).inner()),
    {
        self.0
    }
}

impl<'s, 'a, T: ?Sized> Reborrow<'s> for Handle<&'a T> {
    type Output = Self;

    open spec fn reborrowed(before: Self, out: Self) -> bool {
        out == before
    }

    open spec fn kept(before: Self, after: Self) -> bool {
        after == before
    }

    fn reborrow(&'s mut self) -> (out: Self) {
        Handle(self.0)
    }
}

impl<'s, 'a, T: ?Sized + 'a + 's> Reborrow<'s> for Handle<&'a mut T> {
    type Output = Handle<&'s mut T>;

    open spec fn reborrowed(before: Self, out: Handle<&'s mut T>) -> bool {
        &*out.inner() == &*before.inner()
    }

    /// What a mutable handle holds afterwards is told by the final value of
    /// the reborrow, which `reborrow` below states directly.
    open spec fn kept(before: Self, after: Self) -> bool {
        true
    }

    fn reborrow(&'s mut self) -> (out: Handle<&'s mut T>)
        ensures
            &*final(self).inner() == &*final(out.inner()),
            &*final(final(self).inner()) == &*final(old(self).inner()),
    {
        Handle(&mut *self.0)
    }
}

impl<'a, T> Coerce<HandleRef<'a, T>> for HandleRef<'a, T> {
    open spec fn coerces_to(self, other: HandleRef<'a, T>) -> bool {
        other == self
    }

    open spec fn gives_up(self, other: HandleRef<'a, T>) -> bool {
        false
    }

    fn coerce(self) -> (r: HandleRef<'a, T>) {
        self
    }
}

impl<'a, T> Coerce<HandleRef<'a, T>> for HandleMut<'a, T> {
    open spec fn coerces_to(self, other: HandleRef<'a, T>) -> bool {
        *other.inner() == *self.inner()
    }

    open spec fn gives_up(self, other: HandleRef<'a, T>) -> bool {
        true
    }

    fn coerce(self) -> (r: HandleRef<'a, T>) {
        Handle(self.0)
    }
}

impl<'a, T> Coerce<HandleMut<'a, T>> for HandleMut<'a, T> {
    open spec fn coerces_to(self, other: HandleMut<'a, T>) -> bool {
        other == self
    }

    open spec fn gives_up(self, other: HandleMut<'a, T>) -> bool {
        false
    }

    fn coerce(self) -> (r: HandleMut<'a, T>) {
        self
    }
}

impl<'a, T> CoerceIdentity for HandleRef<'a, T> {
    proof fn lemma_coerce_identity(self, other: HandleRef<'a, T>) {
    }
}

impl<'a, T> CoerceIdentity for HandleMut<'a, T> {
    proof fn lemma_coerce_identity(self, other: HandleMut<'a, T>) {
    }
}

impl<'a, T> CoerceTwice<HandleRef<'a, T>, HandleRef<'a, T>> for HandleRef<'a, T> {
    proof fn lemma_coerce_twice(
        self,
        mid: HandleRef<'a, T>,
        target: HandleRef<'a, T>,
        direct: HandleRef<'a, T>,
    ) {
    }
}

impl<'a, T> CoerceTwice<HandleMut<'a, T>, HandleMut<'a, T>> for HandleMut<'a, T> {
    proof fn lemma_coerce_twice(
        self,
        mid: HandleMut<'a, T>,
        target: HandleMut<'a, T>,
        direct: HandleMut<'a, T>,
    ) {
    }
}

impl<'a, T> CoerceTwice<HandleMut<'a, T>, HandleRef<'a, T>> for HandleMut<'a, T> {
    proof fn lemma_coerce_twice(
        self,
        mid: HandleMut<'a, T>,
        target: HandleRef<'a, T>,
        direct: HandleRef<'a, T>,
    ) {
        broadcast use group_handle;

    }
}

impl<'a, T> CoerceTwice<HandleRef<'a, T>, HandleRef<'a, T>> for HandleMut<'a, T> {
    proof fn lemma_coerce_twice(
        self,
        mid: HandleRef<'a, T>,
        target: HandleRef<'a, T>,
        direct: HandleRef<'a, T>,
    ) {
        broadcast use group_handle;

    }
}

impl<'a, T> UnifyOp<HandleRef<'a, T>> for HandleRef<'a, T> {
    type Output = HandleRef<'a, T>;
}

impl<'a, T> UnifyOp<HandleMut<'a, T>> for HandleRef<'a, T> {
    type Output = HandleMut<'a, T>;
}

impl<'a, T> UnifyOp<HandleRef<'a, T>> for HandleMut<'a, T> {
    type Output = HandleMut<'a, T>;
}

impl<'a, T> UnifyOp<HandleMut<'a, T>> for HandleMut<'a, T> {
    type Output = HandleMut<'a, T>;
}

impl<'a, T> AsPermissionOp for HandleRef<'a, T> {
    type Output = Shared;
}

impl<'a, T> AsPermissionOp for HandleMut<'a, T> {
    type Output = Mutable;
}

impl<'a, T> LimitByOp<()> for HandleRef<'a, T> {
    type Output = Nothing;
}

impl<'a, T> LimitByOp<Shared> for HandleRef<'a, T> {
    type Output = Just<Self>;
}

impl<'a, T> LimitByOp<Mutable> for HandleRef<'a, T> {
    type Output = Just<Self>;
}

impl<'a, T> LimitByOp<()> for HandleMut<'a, T> {
    type Output = Nothing;
}

impl<'a, T> LimitByOp<Shared> for HandleMut<'a, T> {
    type Output = Just<HandleRef<'a, T>>;
}

impl<'a, T> LimitByOp<Mutable> for HandleMut<'a, T> {
    type Output = Just<Self>;
}

} // verus!
