//! Implementation of indexation and context ops on 4-tuple.
use vstd::prelude::*;

use crate::indexed_tuple::{Get, Index, Put, PutCommute, PutTwice};
use crate::ops::{AsPermissionOp, Coerce, CoerceIdentity, CoerceTwice, InverseOp, LimitBy, LimitByOp, Reborrow, Unify, UnifyOp};

verus! {

/// Indexed 4-tuple.
#[derive(Copy, Clone)]
pub struct Tuple4<T0, T1, T2, T3>(pub T0, pub T1, pub T2, pub T3);

impl<T0, T1, T2, T3> Get<Index<0>> for Tuple4<T0, T1, T2, T3> {
    type Output = T0;

    open spec fn slot(&self) -> T0 {
        self.0
    }

    open spec fn with_slot(&self, v: T0) -> Self {
        Tuple4(v, self.1, self.2, self.3)
    }

    fn get(&self) -> (r: &T0) {
        &self.0
    }

    proof fn lemma_slot_of_with_slot(&self, v: Self::Output) {
    }

    proof fn lemma_with_own_slot(&self) {
    }

    proof fn lemma_with_slot_twice(&self, v: Self::Output, w: Self::Output) {
    }

    fn get_mut(&mut self) -> (r: &mut T0) {
        &mut self.0
    }
}

impl<T0, T1, T2, T3> Get<Index<1>> for Tuple4<T0, T1, T2, T3> {
    type Output = T1;

    open spec fn slot(&self) -> T1 {
        self.1
    }

    open spec fn with_slot(&self, v: T1) -> Self {
        Tuple4(self.0, v, self.2, self.3)
    }

    fn get(&self) -> (r: &T1) {
        &self.1
    }

    proof fn lemma_slot_of_with_slot(&self, v: Self::Output) {
    }

    proof fn lemma_with_own_slot(&self) {
    }

    proof fn lemma_with_slot_twice(&self, v: Self::Output, w: Self::Output) {
    }

    fn get_mut(&mut self) -> (r: &mut T1) {
        &mut self.1
    }
}

impl<T0, T1, T2, T3> Get<Index<2>> for Tuple4<T0, T1, T2, T3> {
    type Output = T2;

    open spec fn slot(&self) -> T2 {
        self.2
    }

    open spec fn with_slot(&self, v: T2) -> Self {
        Tuple4(self.0, self.1, v, self.3)
    }

    fn get(&self) -> (r: &T2) {
        &self.2
    }

    proof fn lemma_slot_of_with_slot(&self, v: Self::Output) {
    }

    proof fn lemma_with_own_slot(&self) {
    }

    proof fn lemma_with_slot_twice(&self, v: Self::Output, w: Self::Output) {
    }

    fn get_mut(&mut self) -> (r: &mut T2) {
        &mut self.2
    }
}

impl<T0, T1, T2, T3> Get<Index<3>> for Tuple4<T0, T1, T2, T3> {
    type Output = T3;

    open spec fn slot(&self) -> T3 {
        self.3
    }

    open spec fn with_slot(&self, v: T3) -> Self {
        Tuple4(self.0, self.1, self.2, v)
    }

    fn get(&self) -> (r: &T3) {
        &self.3
    }

    proof fn lemma_slot_of_with_slot(&self, v: Self::Output) {
    }

    proof fn lemma_with_own_slot(&self) {
    }

    proof fn lemma_with_slot_twice(&self, v: Self::Output, w: Self::Output) {
    }

    fn get_mut(&mut self) -> (r: &mut T3) {
        &mut self.3
    }
}

impl<T, T0, T1, T2, T3> Put<T, Index<0>> for Tuple4<T0, T1, T2, T3> {
    type Output = Tuple4<T, T1, T2, T3>;
    type Previous = T0;

    open spec fn placed(self, t: T) -> (Tuple4<T, T1, T2, T3>, T0) {
        (Tuple4(t, self.1, self.2, self.3), self.0)
    }

    proof fn lemma_slot_of_placed(self, t: T) {
    }

    proof fn lemma_previous_of_placed(self, t: T) {
    }

    fn put(self, t: T) -> (r: (Tuple4<T, T1, T2, T3>, T0)) {
        let Tuple4(_0, _1, _2, _3) = self;
        let r = Tuple4(t, _1, _2, _3);
        (r, _0)
    }
}

impl<T, T0, T1, T2, T3> Put<T, Index<1>> for Tuple4<T0, T1, T2, T3> {
    type Output = Tuple4<T0, T, T2, T3>;
    type Previous = T1;

    open spec fn placed(self, t: T) -> (Tuple4<T0, T, T2, T3>, T1) {
        (Tuple4(self.0, t, self.2, self.3), self.1)
    }

    proof fn lemma_slot_of_placed(self, t: T) {
    }

    proof fn lemma_previous_of_placed(self, t: T) {
    }

    fn put(self, t: T) -> (r: (Tuple4<T0, T, T2, T3>, T1)) {
        let Tuple4(_0, _1, _2, _3) = self;
        let r = Tuple4(_0, t, _2, _3);
        (r, _1)
    }
}

impl<T, T0, T1, T2, T3> Put<T, Index<2>> for Tuple4<T0, T1, T2, T3> {
    type Output = Tuple4<T0, T1, T, T3>;
    type Previous = T2;

    open spec fn placed(self, t: T) -> (Tuple4<T0, T1, T, T3>, T2) {
        (Tuple4(self.0, self.1, t, self.3), self.2)
    }

    proof fn lemma_slot_of_placed(self, t: T) {
    }

    proof fn lemma_previous_of_placed(self, t: T) {
    }

    fn put(self, t: T) -> (r: (Tuple4<T0, T1, T, T3>, T2)) {
        let Tuple4(_0, _1, _2, _3) = self;
        let r = Tuple4(_0, _1, t, _3);
        (r, _2)
    }
}

impl<T, T0, T1, T2, T3> Put<T, Index<3>> for Tuple4<T0, T1, T2, T3> {
    type Output = Tuple4<T0, T1, T2, T>;
    type Previous = T3;

    open spec fn placed(self, t: T) -> (Tuple4<T0, T1, T2, T>, T3) {
        (Tuple4(self.0, self.1, self.2, t), self.3)
    }

    proof fn lemma_slot_of_placed(self, t: T) {
    }

    proof fn lemma_previous_of_placed(self, t: T) {
    }

    fn put(self, t: T) -> (r: (Tuple4<T0, T1, T2, T>, T3)) {
        let Tuple4(_0, _1, _2, _3) = self;
        let r = Tuple4(_0, _1, _2, t);
        (r, _3)
    }
}

impl<'s, T0, T1, T2, T3> Reborrow<'s> for Tuple4<T0, T1, T2, T3> where
    T0: Reborrow<'s>,
    T1: Reborrow<'s>,
    T2: Reborrow<'s>,
    T3: Reborrow<'s>,
 {
    type Output = Tuple4<
        <T0 as Reborrow<'s>>::Output,
        <T1 as Reborrow<'s>>::Output,
        <T2 as Reborrow<'s>>::Output,
        <T3 as Reborrow<'s>>::Output,
    >;

    open spec fn reborrowed(before: Self, out: Self::Output) -> bool {
        &&& T0::reborrowed(before.0, out.0)
        &&& T1::reborrowed(before.1, out.1)
        &&& T2::reborrowed(before.2, out.2)
        &&& T3::reborrowed(before.3, out.3)
    }

    open spec fn kept(before: Self, after: Self) -> bool {
        &&& T0::kept(before.0, after.0)
        &&& T1::kept(before.1, after.1)
        &&& T2::kept(before.2, after.2)
        &&& T3::kept(before.3, after.3)
    }

    fn reborrow(&'s mut self) -> (out: Self::Output) {
        Tuple4(self.0.reborrow(), self.1.reborrow(), self.2.reborrow(), self.3.reborrow())
    }
}

impl<AT0, AT1, AT2, AT3, BT0, BT1, BT2, BT3> UnifyOp<Tuple4<BT0, BT1, BT2, BT3>> for Tuple4<
    AT0,
    AT1,
    AT2,
    AT3,
> where AT0: UnifyOp<BT0>, AT1: UnifyOp<BT1>, AT2: UnifyOp<BT2>, AT3: UnifyOp<BT3> {
    type Output = Tuple4<Unify<(AT0, BT0)>, Unify<(AT1, BT1)>, Unify<(AT2, BT2)>, Unify<(AT3, BT3)>>;
}

impl<AT0, AT1, AT2, AT3, BT0, BT1, BT2, BT3> LimitByOp<Tuple4<BT0, BT1, BT2, BT3>> for Tuple4<
    AT0,
    AT1,
    AT2,
    AT3,
> where AT0: LimitByOp<BT0>, AT1: LimitByOp<BT1>, AT2: LimitByOp<BT2>, AT3: LimitByOp<BT3> {
    type Output = Tuple4<
        LimitBy<AT0, BT0>,
        LimitBy<AT1, BT1>,
        LimitBy<AT2, BT2>,
        LimitBy<AT3, BT3>,
    >;
}

impl<AT0, AT1, AT2, AT3, BT0, BT1, BT2, BT3> Coerce<Tuple4<BT0, BT1, BT2, BT3>> for Tuple4<
    AT0,
    AT1,
    AT2,
    AT3,
> where AT0: Coerce<BT0>, AT1: Coerce<BT1>, AT2: Coerce<BT2>, AT3: Coerce<BT3> {
    open spec fn coerces_to(self, other: Tuple4<BT0, BT1, BT2, BT3>) -> bool {
        &&& self.0.coerces_to(other.0)
        &&& self.1.coerces_to(other.1)
        &&& self.2.coerces_to(other.2)
        &&& self.3.coerces_to(other.3)
    }

    open spec fn gives_up(self, other: Tuple4<BT0, BT1, BT2, BT3>) -> bool {
        false
    }

    fn coerce(self) -> (r: Tuple4<BT0, BT1, BT2, BT3>) {
        Tuple4(self.0.coerce(), self.1.coerce(), self.2.coerce(), self.3.coerce())
    }
}

impl<T0, T1, T2, T3> CoerceIdentity for Tuple4<T0, T1, T2, T3> where
    T0: CoerceIdentity,
    T1: CoerceIdentity,
    T2: CoerceIdentity,
    T3: CoerceIdentity,
 {
    proof fn lemma_coerce_identity(self, other: Self) {
        self.0.lemma_coerce_identity(other.0);
        self.1.lemma_coerce_identity(other.1);
        self.2.lemma_coerce_identity(other.2);
        self.3.lemma_coerce_identity(other.3);
    }
}

impl<AT0, AT1, AT2, AT3, BT0, BT1, BT2, BT3, CT0, CT1, CT2, CT3> CoerceTwice<
    Tuple4<BT0, BT1, BT2, BT3>,
    Tuple4<CT0, CT1, CT2, CT3>,
> for Tuple4<AT0, AT1, AT2, AT3> where
    AT0: CoerceTwice<BT0, CT0>,
    AT1: CoerceTwice<BT1, CT1>,
    AT2: CoerceTwice<BT2, CT2>,
    AT3: CoerceTwice<BT3, CT3>,
    BT0: Coerce<CT0>,
    BT1: Coerce<CT1>,
    BT2: Coerce<CT2>,
    BT3: Coerce<CT3>,
 {
    proof fn lemma_coerce_twice(
        self,
        mid: Tuple4<BT0, BT1, BT2, BT3>,
        target: Tuple4<CT0, CT1, CT2, CT3>,
        direct: Tuple4<CT0, CT1, CT2, CT3>,
    ) {
        self.0.lemma_coerce_twice(mid.0, target.0, direct.0);
        self.1.lemma_coerce_twice(mid.1, target.1, direct.1);
        self.2.lemma_coerce_twice(mid.2, target.2, direct.2);
        self.3.lemma_coerce_twice(mid.3, target.3, direct.3);
    }
}

impl<T0, T1, T2, T3> AsPermissionOp for Tuple4<T0, T1, T2, T3> where
    T0: AsPermissionOp,
    T1: AsPermissionOp,
    T2: AsPermissionOp,
    T3: AsPermissionOp,
 {
    type Output = Tuple4<
        <T0 as AsPermissionOp>::Output,
        <T1 as AsPermissionOp>::Output,
        <T2 as AsPermissionOp>::Output,
        <T3 as AsPermissionOp>::Output,
    >;
}

impl<T0, T1, T2, T3> InverseOp for Tuple4<T0, T1, T2, T3> where
    T0: InverseOp,
    T1: InverseOp,
    T2: InverseOp,
    T3: InverseOp,
 {
    type Output = Tuple4<
        <T0 as InverseOp>::Output,
        <T1 as InverseOp>::Output,
        <T2 as InverseOp>::Output,
        <T3 as InverseOp>::Output,
    >;
}

/// A put changes only its own slot: every other slot of the tuple keeps its value.
pub proof fn lemma_put_keeps_other_slots<T, T0, T1, T2, T3>(t: Tuple4<T0, T1, T2, T3>, v: T)
    ensures
        <Tuple4<T0, T1, T2, T3> as Put<T, Index<0>>>::placed(t, v).0.1 == t.1,
        <Tuple4<T0, T1, T2, T3> as Put<T, Index<0>>>::placed(t, v).0.2 == t.2,
        <Tuple4<T0, T1, T2, T3> as Put<T, Index<0>>>::placed(t, v).0.3 == t.3,
        <Tuple4<T0, T1, T2, T3> as Put<T, Index<1>>>::placed(t, v).0.0 == t.0,
        <Tuple4<T0, T1, T2, T3> as Put<T, Index<1>>>::placed(t, v).0.2 == t.2,
        <Tuple4<T0, T1, T2, T3> as Put<T, Index<1>>>::placed(t, v).0.3 == t.3,
        <Tuple4<T0, T1, T2, T3> as Put<T, Index<2>>>::placed(t, v).0.0 == t.0,
        <Tuple4<T0, T1, T2, T3> as Put<T, Index<2>>>::placed(t, v).0.1 == t.1,
        <Tuple4<T0, T1, T2, T3> as Put<T, Index<2>>>::placed(t, v).0.3 == t.3,
        <Tuple4<T0, T1, T2, T3> as Put<T, Index<3>>>::placed(t, v).0.0 == t.0,
        <Tuple4<T0, T1, T2, T3> as Put<T, Index<3>>>::placed(t, v).0.1 == t.1,
        <Tuple4<T0, T1, T2, T3> as Put<T, Index<3>>>::placed(t, v).0.2 == t.2,
{
}

impl<T, T0, T1, T2, T3> PutTwice<T, Index<0>> for Tuple4<T0, T1, T2, T3> {
    proof fn lemma_put_twice(self, t: T, u: T) {
    }
}

impl<T, T0, T1, T2, T3> PutTwice<T, Index<1>> for Tuple4<T0, T1, T2, T3> {
    proof fn lemma_put_twice(self, t: T, u: T) {
    }
}

impl<T, T0, T1, T2, T3> PutTwice<T, Index<2>> for Tuple4<T0, T1, T2, T3> {
    proof fn lemma_put_twice(self, t: T, u: T) {
    }
}

impl<T, T0, T1, T2, T3> PutTwice<T, Index<3>> for Tuple4<T0, T1, T2, T3> {
    proof fn lemma_put_twice(self, t: T, u: T) {
    }
}

impl<X, Y, T0, T1, T2, T3> PutCommute<X, Y, Index<0>, Index<1>> for Tuple4<T0, T1, T2, T3> {
    proof fn lemma_puts_commute(self, x: X, y: Y) {
    }
}

impl<X, Y, T0, T1, T2, T3> PutCommute<X, Y, Index<0>, Index<2>> for Tuple4<T0, T1, T2, T3> {
    proof fn lemma_puts_commute(self, x: X, y: Y) {
    }
}

impl<X, Y, T0, T1, T2, T3> PutCommute<X, Y, Index<0>, Index<3>> for Tuple4<T0, T1, T2, T3> {
    proof fn lemma_puts_commute(self, x: X, y: Y) {
    }
}

impl<X, Y, T0, T1, T2, T3> PutCommute<X, Y, Index<1>, Index<0>> for Tuple4<T0, T1, T2, T3> {
    proof fn lemma_puts_commute(self, x: X, y: Y) {
    }
}

impl<X, Y, T0, T1, T2, T3> PutCommute<X, Y, Index<1>, Index<2>> for Tuple4<T0, T1, T2, T3> {
    proof fn lemma_puts_commute(self, x: X, y: Y) {
    }
}

impl<X, Y, T0, T1, T2, T3> PutCommute<X, Y, Index<1>, Index<3>> for Tuple4<T0, T1, T2, T3> {
    proof fn lemma_puts_commute(self, x: X, y: Y) {
    }
}

impl<X, Y, T0, T1, T2, T3> PutCommute<X, Y, Index<2>, Index<0>> for Tuple4<T0, T1, T2, T3> {
    proof fn lemma_puts_commute(self, x: X, y: Y) {
    }
}

impl<X, Y, T0, T1, T2, T3> PutCommute<X, Y, Index<2>, Index<1>> for Tuple4<T0, T1, T2, T3> {
    proof fn lemma_puts_commute(self, x: X, y: Y) {
    }
}

impl<X, Y, T0, T1, T2, T3> PutCommute<X, Y, Index<2>, Index<3>> for Tuple4<T0, T1, T2, T3> {
    proof fn lemma_puts_commute(self, x: X, y: Y) {
    }
}

impl<X, Y, T0, T1, T2, T3> PutCommute<X, Y, Index<3>, Index<0>> for Tuple4<T0, T1, T2, T3> {
    proof fn lemma_puts_commute(self, x: X, y: Y) {
    }
}

impl<X, Y, T0, T1, T2, T3> PutCommute<X, Y, Index<3>, Index<1>> for Tuple4<T0, T1, T2, T3> {
    proof fn lemma_puts_commute(self, x: X, y: Y) {
    }
}

impl<X, Y, T0, T1, T2, T3> PutCommute<X, Y, Index<3>, Index<2>> for Tuple4<T0, T1, T2, T3> {
    proof fn lemma_puts_commute(self, x: X, y: Y) {
    }
}

} // verus!
