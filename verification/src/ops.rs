//! General purpose context-related operations.
use vstd::prelude::*;

use crate::reference::Mutable;

verus! {

/// Reborrow emulation trait.
///
/// The lifetime of the reborrow is a parameter of the trait, so an
/// implementation names it once, together with the outlives bounds it needs
/// (Verus does not accept those bounds as `where` clauses on a generic
/// associated type, the form `type Output<'s> where Self: 's`).
/// Generic code asks for `Reborrow<'s>` for the lifetime it borrows for.
/// Beware that a `for<'s> Reborrow<'s>` bound asks for every lifetime, so a
/// context holding a mutable handle meets it only when the capability type is
/// `'static`.
///
/// `reborrowed(before, out)` says that the reborrow `out` reaches the same
/// values as `before`, the value it was taken from. `kept(before, after)` says
/// what `self` is once the reborrow is no longer used: shared and empty slots
/// are left as they were. (For a mutable slot, that writes through the reborrow
/// come back is a statement about the reborrow's final value; the `Handle`
/// implementation states it, and it is not carried through this trait.)
pub trait Reborrow<'s>: Sized {
    type Output;

    spec fn reborrowed(before: Self, out: Self::Output) -> bool;

    spec fn kept(before: Self, after: Self) -> bool;

    fn reborrow(&'s mut self) -> (out: Self::Output)
        ensures
            Self::reborrowed(*old(self), out),
            Self::kept(*old(self), *final(self)),
    ;
}

/// Coerce to `Other` type.
///
/// Coerce trait by default only supports only one coercion permitted by the
/// Rust language: `&mut T` -> `&T`.
/// Additionally, when invoked on `Store`s it can remove capability from context.
///
/// `coerces_to(self, other)` says that `other` is what coercing `self` gives.
/// `gives_up(self, other)` says that the coercion keeps no mutable access
/// of `self`: every mutable reference `self` held is then done with, and its
/// referent keeps the value it has now. It holds for a single handle coerced
/// from mutable to shared, and for a slot emptied by the coercion; for tuples
/// and stores it is left `false`, as Verus can conclude that a value is done
/// with from its fields only in the other direction.
pub trait Coerce<Other>: Sized {
    spec fn coerces_to(self, other: Other) -> bool;

    spec fn gives_up(self, other: Other) -> bool;

    fn coerce(self) -> (r: Other)
        ensures
            self.coerces_to(r),
            self.gives_up(r) ==> has_resolved(self),
    ;
}

/// Coercing a value to its own type gives back the same value.
pub trait CoerceIdentity: Coerce<Self> {
    proof fn lemma_coerce_identity(self, other: Self)
        ensures
            self.coerces_to(other) ==> other == self,
    ;
}

/// Coercing in two steps, through `Mid`, gives what coercing to `Target` at
/// once gives.
pub trait CoerceTwice<Mid, Target>: Coerce<Mid> + Coerce<Target> where Mid: Coerce<Target> {
    proof fn lemma_coerce_twice(self, mid: Mid, target: Target, direct: Target)
        ensures
            <Self as Coerce<Mid>>::coerces_to(self, mid) && mid.coerces_to(target)
                && <Self as Coerce<Target>>::coerces_to(self, direct) ==> target == direct,
    ;
}

/// Unification of two contexts (one step of [`Unified`]).
pub trait UnifyOp<T>: Sized {
    type Output;
}

/// Trait permitting unification.
///
/// You shouldn't use this trait directly.
/// [`Unify`] type provides convenient shortcut.
/// The only time when you need this is to produce correct trait bounds
/// for contextual methods with wildcard contexts in traits.
pub trait Unified {
    type Output;
}

impl Unified for () {
    type Output = ();
}

impl<T0> Unified for (T0,) {
    type Output = T0;
}

impl<T0, T1> Unified for (T0, T1) where T0: UnifyOp<T1> {
    type Output = <T0 as UnifyOp<T1>>::Output;
}

impl<T0, T1, T2> Unified for (T0, T1, T2) where
    (T0, T1): Unified,
    Unify<(T0, T1)>: UnifyOp<T2>,
 {
    type Output = <Unify<(T0, T1)> as UnifyOp<T2>>::Output;
}

impl<T0, T1, T2, T3> Unified for (T0, T1, T2, T3) where
    (T0, T1, T2): Unified,
    Unify<(T0, T1, T2)>: UnifyOp<T3>,
 {
    type Output = <Unify<(T0, T1, T2)> as UnifyOp<T3>>::Output;
}

/// Unify multiple `Store`s or `Handle`s into a single one.
///
/// Unification and coercion are meant as two inverse operations: a unified
/// context is expected to coerce back to each of its parts. That is how the
/// `UnifyOp` and `Coerce` impls of this crate are written, but it is not
/// encoded in the unification traits, and no proof here states it.
pub type Unify<T> = <T as Unified>::Output;

/// Trait permitting controlled removal of capabilities from context.
///
/// See [`LimitBy`] for details.
pub trait LimitByOp<Permissions> {
    type Output;
}

/// Remove unnecessary capabilities from context.
///
/// This is useful when e.g. you call other function, but satisfy some of its capability
/// requirements locally.
pub type LimitBy<Target, Permissions> = <Target as LimitByOp<Permissions>>::Output;

/// Permission that complements a reference kind.
pub trait InverseOp {
    type Output;
}

impl InverseOp for () {
    type Output = Mutable;
}

/// Reference kind that a handle grants.
pub trait AsPermissionOp {
    type Output;
}

} // verus!
