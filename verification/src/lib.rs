//! An experimental emulation of contexts in Rust.
use vstd::prelude::*;

pub mod context;
pub mod cxfn_trait;
pub mod indexed_tuple;
pub mod lifetime;
pub mod ops;
pub mod option;
pub mod reference;
pub mod tuple4;

/// Prelude for the GAT-based approach.
pub mod prelude_gat;
/// Prelude for the input-lifetime-based approach; start here.
pub mod prelude_input;

use crate::indexed_tuple::Indexed;

verus! {

/// Trait for marking capability wrapper type.
///
/// Capabilities are expressed as a newtype wrapper around the payload.
/// **Note** that every capability in your program must have a unique index.
/// Index denotes the slot inside a `Store` where capability will be stored.
///
/// `payload` is the value the capability wraps; `as_ref` gives it out, and a
/// value written through `as_mut` becomes the new payload. An implementation
/// outside Verus has to provide `payload` as well, and must return from it
/// exactly what `as_ref` returns (for a newtype `C(T)`: `&self.0`); the
/// contracts of `Store::extract_ref` and `Store::extract_mut` are stated
/// through it.
pub trait Capability {
    type Index: Indexed;
    type Inner: ?Sized;

    spec fn payload(&self) -> &Self::Inner;

    fn as_ref(&self) -> (r: &Self::Inner)
        ensures
            r == self.payload(),
    ;

    fn as_mut(&mut self) -> (r: &mut Self::Inner)
        ensures
            &*r == old(self).payload(),
            final(self).payload() == &*final(r),
    ;
}

} // verus!
