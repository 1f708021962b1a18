//! Prelude for input-lifetime-based approach.
pub use crate::context::store::{EmptyStore, HaveLocalReferenceTo, MakeContext, Push};
pub use crate::cxfn_trait::input::{CxFn, CxFnMut, CxFnOnce};
pub use crate::indexed_tuple::{Index, Indexed};
pub use crate::lifetime::{Applicator, Select, SelectT};
pub use crate::ops::{Coerce, LimitBy, Reborrow, Unify};
pub use crate::reference::{Mutable, Shared};
pub use crate::Capability;
