//! Input-lifetime-based approach.
use vstd::prelude::*;

verus! {

/// Contextual function that can be called once.
pub trait CxFnOnce<'_0, '_1, '_2, '_3, Args> {
    type Output;

    type Context;

    fn cx_call_once(self, args: Args, cx: Self::Context) -> Self::Output;
}

/// Contextual function that can be called through a mutable reference.
pub trait CxFnMut<'_0, '_1, '_2, '_3, Args>: CxFnOnce<'_0, '_1, '_2, '_3, Args> {
    fn cx_call_mut(&mut self, args: Args, cx: Self::Context) -> Self::Output;
}

/// Contextual function that can be called through a shared reference.
pub trait CxFn<'_0, '_1, '_2, '_3, Args>: CxFnMut<'_0, '_1, '_2, '_3, Args> {
    fn cx_call(&self, args: Args, cx: Self::Context) -> Self::Output;
}

} // verus!
