//! Implementation of `Store` which is a storage of `Handle`s.
use vstd::prelude::*;

use crate::context::handle::{group_handle, Handle, HandleMut, HandleRef};
use crate::indexed_tuple::{Get, Put, PutCommute, PutTwice};
use crate::ops::{AsPermissionOp, Coerce, CoerceIdentity, CoerceTwice, InverseOp, LimitBy, LimitByOp, Reborrow, Unify, UnifyOp};
use crate::option::{Just, Nothing};
use crate::tuple4::Tuple4;
use crate::Capability;

verus! {

broadcast use group_handle;

/// Storage for handles.
#[derive(Copy, Clone)]
pub struct Store<Tuple>(Tuple);

impl<Tuple> Store<Tuple> {
    /// The tuple of slots the store keeps.
    pub closed spec fn tuple(self) -> Tuple {
        self.0
    }

    /// The store that keeps `t`.
    pub closed spec fn wrap(t: Tuple) -> Self {
        Store(t)
    }

    /// A store is its tuple of slots, and nothing else.
    pub broadcast proof fn lemma_wrap_tuple(t: Tuple)
        ensures
            #[trigger] Self::wrap(t).tuple() == t,
    {
    }

    /// Two stores that keep the same tuple are equal.
    pub broadcast proof fn lemma_tuple_wrap(s: Self)
        ensures
            #[trigger] Self::wrap(s.tuple()) == s,
    {
    }

    /// Once a store is done with, so are the handles it keeps.
    pub broadcast proof fn lemma_resolved_tuple(s: Self)
        ensures
            #[trigger] has_resolved(s) ==> has_resolved(s.tuple()),
    {
    }

    /// Extract shared reference to a capability.
    ///
    /// Using [`ExtractRef`] trait in non-generic code gets verbose,
    /// and this function provides slightly more concise alternative.
    /// The result is the payload of the capability that the store holds.
    pub fn extract_ref<'a, C>(&self) -> (r: &'a <C as Capability>::Inner) where
        C: Capability + ?Sized + 'a,
        Self: ExtractRef<'a, C>,
        ensures
            r == <Self as ExtractRef<'a, C>>::held(self).payload(),
    {
        ExtractRef::extract_ref(self).as_ref()
    }

    /// Extract mutable reference to a capability.
    ///
    /// Using [`ExtractMut`] trait in non-generic code gets verbose,
    /// and this function provides slightly more concise alternative.
    /// The result reads the payload of the capability that the store holds,
    /// and what is written through it becomes that capability's payload.
    pub fn extract_mut<'a, 's, C>(&'s mut self) -> (r: &'s mut <C as Capability>::Inner) where
        'a: 's,
        C: Capability + ?Sized + 'a,
        Self: ExtractMut<'a, C>,
        ensures
            &*r == old(self).held_mut().payload(),
            final(self).held_mut().payload() == &*final(r),
            &*final(final(self).held_mut()) == &*final(old(self).held_mut()),
            old(self).same_elsewhere(final(self)),
    {
        ExtractMut::extract_mut(self).as_mut()
    }
}

/// The facts that let a proof see through `Handle`s and `Store`s.
pub broadcast group group_store {
    group_handle,
    Store::lemma_wrap_tuple,
    Store::lemma_tuple_wrap,
    Store::lemma_resolved_tuple,
}

/// Empty context type.
pub type EmptyStore = Store<Tuple4<Nothing, Nothing, Nothing, Nothing>>;

impl Store<Tuple4<Nothing, Nothing, Nothing, Nothing>> {
    #[allow(clippy::new_without_default)]
    pub fn new() -> (s: Self)
        ensures
            s.tuple() == Tuple4(Nothing, Nothing, Nothing, Nothing),
    {
        Store(Tuple4(Nothing, Nothing, Nothing, Nothing))
    }
}

impl<'s, Tuple> Reborrow<'s> for Store<Tuple> where Tuple: Reborrow<'s> {
    type Output = Store<<Tuple as Reborrow<'s>>::Output>;

    open spec fn reborrowed(before: Self, out: Self::Output) -> bool {
        Tuple::reborrowed(before.tuple(), out.tuple())
    }

    open spec fn kept(before: Self, after: Self) -> bool {
        Tuple::kept(before.tuple(), after.tuple())
    }

    fn reborrow(&'s mut self) -> (out: Self::Output) {
        Store(self.0.reborrow())
    }
}

/// Extract shared reference to a capability.
///
/// **Note** that resulting reference is not bound to lifetime of `self`.
/// This is OK since we are working with shared references.
///
/// `held` is the reference that `self` holds.
pub trait ExtractRef<'a, T> where T: ?Sized + 'a {
    spec fn held(&self) -> &'a T;

    fn extract_ref(&self) -> (r: &'a T)
        ensures
            r == self.held(),
    ;
}

impl<'a, C, Tuple> ExtractRef<'a, C> for Store<Tuple> where
    C: Capability + ?Sized + 'a,
    Tuple: Get<<C as Capability>::Index, Output = Just<HandleRef<'a, C>>>,
 {
    open spec fn held(&self) -> &'a C {
        self.tuple().slot().0.inner()
    }

    fn extract_ref(&self) -> (r: &'a C) {
        self.0.get().0.as_ref()
    }
}

/// Extract mutable reference to a capability.
///
/// **Note** that resulting reference assumes lifetime of `self` and discards original lifetime.
/// Unfortunately this is required to establish uniqueness of mutable reference.
///
/// `held_mut` is the mutable reference that `self` holds, and
/// `same_elsewhere(a, b)` says that `a` and `b` agree on everything but that
/// reference.
pub trait ExtractMut<'a, T> where T: ?Sized + 'a {
    spec fn held_mut(&self) -> &'a mut T;

    spec fn same_elsewhere(&self, other: &Self) -> bool;

    fn extract_mut<'s>(&'s mut self) -> (r: &'s mut T) where 'a: 's
        ensures
            &*r == &*old(self).held_mut(),
            &*final(self).held_mut() == &*final(r),
            &*final(final(self).held_mut()) == &*final(old(self).held_mut()),
            old(self).same_elsewhere(final(self)),
    ;
}

impl<'a, C, Tuple> ExtractMut<'a, C> for Store<Tuple> where
    C: Capability + ?Sized + 'a,
    Tuple: Get<<C as Capability>::Index, Output = Just<HandleMut<'a, C>>>,
 {
    open spec fn held_mut(&self) -> &'a mut C {
        self.tuple().slot().0.inner()
    }

    open spec fn same_elsewhere(&self, other: &Self) -> bool {
        other.tuple() == self.tuple().with_slot(other.tuple().slot())
    }

    fn extract_mut<'s>(&'s mut self) -> (r: &'s mut C) where 'a: 's {
        let ghost before = self.0;
        let slot = self.0.get_mut();
        proof {
            before.lemma_slot_of_with_slot(*final(slot));
        }
        slot.0.as_mut()
    }
}

/// Insert reference to a capability into `Store`.
///
/// It is expected that push will overwrite previously stored value.
/// `pushed(self, t)` is the store that `push` gives.
pub trait Push<CRef>: Sized {
    type Output;

    spec fn pushed(self, t: CRef) -> Self::Output;

    fn push(self, t: CRef) -> (r: Self::Output)
        ensures
            r == self.pushed(t),
    ;
}

impl<'a, C, Tuple> Push<&'a C> for Store<Tuple> where
    C: Capability + ?Sized + 'a,
    Tuple: Put<Just<HandleRef<'a, C>>, <C as Capability>::Index>,
 {
    type Output = Store<<Tuple as Put<Just<HandleRef<'a, C>>, <C as Capability>::Index>>::Output>;

    open spec fn pushed(self, t: &'a C) -> Self::Output {
        Store::wrap(self.tuple().placed(Just(Handle::wrap(t))).0)
    }

    fn push(self, t: &'a C) -> (r: Self::Output) {
        let (tuple, _) = self.0.put(Just(HandleRef::new(t)));
        Store(tuple)
    }
}

impl<'a, C, Tuple> Push<&'a mut C> for Store<Tuple> where
    C: Capability + ?Sized + 'a,
    Tuple: Put<Just<HandleMut<'a, C>>, <C as Capability>::Index>,
 {
    type Output = Store<<Tuple as Put<Just<HandleMut<'a, C>>, <C as Capability>::Index>>::Output>;

    open spec fn pushed(self, t: &'a mut C) -> Self::Output {
        Store::wrap(self.tuple().placed(Just(Handle::wrap(t))).0)
    }

    fn push(self, t: &'a mut C) -> (r: Self::Output) {
        let ghost t0 = t;
        let h = Handle::new(t);
        assert(h == Handle::wrap(t0));
        let (tuple, _) = self.0.put(Just(h));
        Store(tuple)
    }
}

impl<TupleA, TupleB> Coerce<Store<TupleB>> for Store<TupleA> where TupleA: Coerce<TupleB> {
    open spec fn coerces_to(self, other: Store<TupleB>) -> bool {
        self.tuple().coerces_to(other.tuple())
    }

    open spec fn gives_up(self, other: Store<TupleB>) -> bool {
        false
    }

    fn coerce(self) -> (r: Store<TupleB>) {
        Store(self.0.coerce())
    }
}

impl<Tuple> CoerceIdentity for Store<Tuple> where Tuple: CoerceIdentity {
    proof fn lemma_coerce_identity(self, other: Self) {
        broadcast use group_store;

        self.tuple().lemma_coerce_identity(other.tuple());
    }
}

impl<TupleA, TupleB, TupleC> CoerceTwice<Store<TupleB>, Store<TupleC>> for Store<TupleA> where
    TupleA: CoerceTwice<TupleB, TupleC>,
    TupleB: Coerce<TupleC>,
 {
    proof fn lemma_coerce_twice(
        self,
        mid: Store<TupleB>,
        target: Store<TupleC>,
        direct: Store<TupleC>,
    ) {
        broadcast use group_store;

        self.tuple().lemma_coerce_twice(mid.tuple(), target.tuple(), direct.tuple());
    }
}

impl<TupleA, TupleB> UnifyOp<Store<TupleB>> for Store<TupleA> where TupleA: UnifyOp<TupleB> {
    type Output = Store<Unify<(TupleA, TupleB)>>;
}

/// Builds the store type of [`MakeContext`], one reference at a time.
pub trait MakeContextHelper {
    type Output;
}

impl MakeContextHelper for () {
    type Output = EmptyStore;
}

impl<T0> MakeContextHelper for (T0,) where EmptyStore: Push<T0> {
    type Output = <EmptyStore as Push<T0>>::Output;
}

impl<T0, T1> MakeContextHelper for (T0, T1) where
    (T0,): MakeContextHelper,
    (T1,): MakeContextHelper,
    MakeContext<(T0,)>: UnifyOp<MakeContext<(T1,)>>,
 {
    type Output = Unify<(MakeContext<(T0,)>, MakeContext<(T1,)>)>;
}

impl<T0, T1, T2> MakeContextHelper for (T0, T1, T2) where
    (T0, T1): MakeContextHelper,
    (T2,): MakeContextHelper,
    MakeContext<(T0, T1)>: UnifyOp<MakeContext<(T2,)>>,
 {
    type Output = Unify<(MakeContext<(T0, T1)>, MakeContext<(T2,)>)>;
}

impl<T0, T1, T2, T3> MakeContextHelper for (T0, T1, T2, T3) where
    (T0, T1, T2): MakeContextHelper,
    (T3,): MakeContextHelper,
    MakeContext<(T0, T1, T2)>: UnifyOp<MakeContext<(T3,)>>,
 {
    type Output = Unify<(MakeContext<(T0, T1, T2)>, MakeContext<(T3,)>)>;
}

/// Construct `Store` type holding specified capabilities.
///
/// `T` is expected to be a tuple of references.
/// Currently is implemented only up to size of 4.
/// Behavior is unspecified when same capability is included multiple times.
/// Use [`Unify`](crate::ops::Unify) for such cases instead.
pub type MakeContext<T> = <T as MakeContextHelper>::Output;

/// Construct set of "permissions"
/// which can be applied to context to remove unnecessary capabilities.
///
/// `T` is expected to be a tuple of references.
/// Refer to [`LimitBy`](crate::ops::LimitBy) for usage.
pub type HaveLocalReferenceTo<T> = <<MakeContext<T> as AsPermissionOp>::Output as InverseOp>::Output;

impl<Tuple> AsPermissionOp for Store<Tuple> where Tuple: AsPermissionOp {
    type Output = Store<<Tuple as AsPermissionOp>::Output>;
}

impl<Tuple> InverseOp for Store<Tuple> where Tuple: InverseOp {
    type Output = Store<<Tuple as InverseOp>::Output>;
}

impl<TupleA, TupleB> LimitByOp<Store<TupleB>> for Store<TupleA> where TupleA: LimitByOp<TupleB> {
    type Output = Store<LimitBy<TupleA, TupleB>>;
}

} // verus!

verus! {

/// A push overwrites: right after a shared reference `c` to capability `C` is
/// pushed into a store, the store holds `c` for `C`, whatever it held before.
pub proof fn lemma_held_after_push<'a, C, Tuple>(s: Store<Tuple>, c: &'a C) where
    C: Capability + ?Sized + 'a,
    Tuple: Put<Just<HandleRef<'a, C>>, <C as Capability>::Index>,
    <Tuple as Put<Just<HandleRef<'a, C>>, <C as Capability>::Index>>::Output: Get<
        <C as Capability>::Index,
        Output = Just<HandleRef<'a, C>>,
    >,

    ensures
        s.pushed(c).held() == c,
{
    s.tuple().lemma_slot_of_placed(Just(Handle::wrap(c)));
}

/// A second push of capability `C` replaces the first: pushing `c1` and then
/// `c2` leaves the same store as pushing `c2` alone.
pub proof fn lemma_push_twice<'a, C, Tuple>(s: Store<Tuple>, c1: &'a C, c2: &'a C) where
    C: Capability + ?Sized + 'a,
    Tuple: PutTwice<Just<HandleRef<'a, C>>, <C as Capability>::Index>,
    <Tuple as Put<Just<HandleRef<'a, C>>, <C as Capability>::Index>>::Output: Put<
        Just<HandleRef<'a, C>>,
        <C as Capability>::Index,
        Output = <Tuple as Put<Just<HandleRef<'a, C>>, <C as Capability>::Index>>::Output,
    >,

    ensures
        s.pushed(c1).pushed(c2) == s.pushed(c2),
{
    broadcast use group_store;

    s.tuple().lemma_put_twice(Just(Handle::wrap(c1)), Just(Handle::wrap(c2)));
}

/// Pushes of two capabilities with different indices commute: either order
/// leaves the same store.
pub proof fn lemma_pushes_commute<'a, 'b, A, B, Tuple>(s: Store<Tuple>, a: &'a A, b: &'b B) where
    A: Capability + ?Sized + 'a,
    B: Capability + ?Sized + 'b,
    Tuple: PutCommute<
        Just<HandleRef<'a, A>>,
        Just<HandleRef<'b, B>>,
        <A as Capability>::Index,
        <B as Capability>::Index,
    >,
    <Tuple as Put<Just<HandleRef<'a, A>>, <A as Capability>::Index>>::Output: Put<
        Just<HandleRef<'b, B>>,
        <B as Capability>::Index,
    >,
    <Tuple as Put<Just<HandleRef<'b, B>>, <B as Capability>::Index>>::Output: Put<
        Just<HandleRef<'a, A>>,
        <A as Capability>::Index,
        Output = <<Tuple as Put<
            Just<HandleRef<'a, A>>,
            <A as Capability>::Index,
        >>::Output as Put<Just<HandleRef<'b, B>>, <B as Capability>::Index>>::Output,
    >,

    ensures
        s.pushed(a).pushed(b) == s.pushed(b).pushed(a),
{
    broadcast use group_store;

    s.tuple().lemma_puts_commute(Just(Handle::wrap(a)), Just(Handle::wrap(b)));
}

/// A push overwrites: right after a mutable reference `m` to capability `C` is
/// pushed into a store, the store holds `m` for `C`, whatever it held before.
pub proof fn lemma_held_mut_after_push<'a, C, Tuple>(s: Store<Tuple>, m: &'a mut C) where
    C: Capability + ?Sized + 'a,
    Tuple: Put<Just<HandleMut<'a, C>>, <C as Capability>::Index>,
    <Tuple as Put<Just<HandleMut<'a, C>>, <C as Capability>::Index>>::Output: Get<
        <C as Capability>::Index,
        Output = Just<HandleMut<'a, C>>,
    >,

    ensures
        s.pushed(m).held_mut() == m,
{
    s.tuple().lemma_slot_of_placed(Just(Handle::wrap(m)));
}

} // verus!
