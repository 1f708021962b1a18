//! Reference *kind* representation and operations defined on it.
use vstd::prelude::*;

use crate::lifetime::Applicator;
use crate::ops::{Coerce, CoerceIdentity, CoerceTwice, InverseOp, LimitByOp, UnifyOp};
use crate::option::{Just, Nothing};

verus! {

/// A kind of reference: `Ref` is the reference to `T` that lives for `'a`.
pub trait ReferenceKind<'a, T: ?Sized + 'a> {
    type Ref;
}

/// The kind of `&mut` references.
pub struct Mutable;

/// The kind of `&` references.
pub struct Shared;

impl<'a, T: ?Sized + 'a> ReferenceKind<'a, T> for Mutable {
    type Ref = &'a mut T;
}

impl<'a, T: ?Sized + 'a> ReferenceKind<'a, T> for Shared {
    type Ref = &'a T;
}

impl UnifyOp<Shared> for Shared {
    type Output = Shared;
}

impl UnifyOp<Mutable> for Shared {
    type Output = Mutable;
}

impl UnifyOp<Shared> for Mutable {
    type Output = Mutable;
}

impl UnifyOp<Mutable> for Mutable {
    type Output = Mutable;
}

impl Coerce<Shared> for Shared {
    open spec fn coerces_to(self, other: Shared) -> bool {
        true
    }

    open spec fn gives_up(self, other: Shared) -> bool {
        false
    }

    fn coerce(self) -> (r: Shared) {
        Shared
    }
}

impl Coerce<Shared> for Mutable {
    open spec fn coerces_to(self, other: Shared) -> bool {
        true
    }

    open spec fn gives_up(self, other: Shared) -> bool {
        false
    }

    fn coerce(self) -> (r: Shared) {
        Shared
    }
}

impl Coerce<Mutable> for Mutable {
    open spec fn coerces_to(self, other: Mutable) -> bool {
        true
    }

    open spec fn gives_up(self, other: Mutable) -> bool {
        false
    }

    fn coerce(self) -> (r: Mutable) {
        Mutable
    }
}

impl CoerceIdentity for Shared {
    proof fn lemma_coerce_identity(self, other: Shared) {
    }
}

impl CoerceIdentity for Mutable {
    proof fn lemma_coerce_identity(self, other: Mutable) {
    }
}

impl CoerceTwice<Shared, Shared> for Shared {
    proof fn lemma_coerce_twice(self, mid: Shared, target: Shared, direct: Shared) {
    }
}

impl CoerceTwice<Mutable, Mutable> for Mutable {
    proof fn lemma_coerce_twice(self, mid: Mutable, target: Mutable, direct: Mutable) {
    }
}

impl CoerceTwice<Mutable, Shared> for Mutable {
    proof fn lemma_coerce_twice(self, mid: Mutable, target: Shared, direct: Shared) {
    }
}

impl CoerceTwice<Shared, Shared> for Mutable {
    proof fn lemma_coerce_twice(self, mid: Shared, target: Shared, direct: Shared) {
    }
}

impl LimitByOp<()> for Shared {
    type Output = Nothing;
}

impl LimitByOp<Shared> for Shared {
    type Output = Just<Self>;
}

impl LimitByOp<Mutable> for Shared {
    type Output = Just<Self>;
}

impl LimitByOp<()> for Mutable {
    type Output = Nothing;
}

impl LimitByOp<Shared> for Mutable {
    type Output = Just<Shared>;
}

impl LimitByOp<Mutable> for Mutable {
    type Output = Just<Self>;
}

impl InverseOp for Shared {
    type Output = Shared;
}

impl InverseOp for Mutable {
    type Output = ();
}

impl<'a, T: ?Sized + 'a> Applicator<'a, T> for Shared {
    type Apply = &'a T;
}

impl<'a, T: ?Sized + 'a> Applicator<'a, T> for Mutable {
    type Apply = &'a mut T;
}

} // verus!
