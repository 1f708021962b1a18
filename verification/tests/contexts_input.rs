#![allow(non_camel_case_types)]

use rust_context_emulation::prelude_input::{
    Capability, Coerce, CxFn, CxFnMut, CxFnOnce, EmptyStore, HaveLocalReferenceTo, Index, LimitBy,
    MakeContext, Mutable, Push, Reborrow, Select, SelectT, Shared, Unify,
};

struct __data_store(Vec<usize>);

impl Capability for __data_store {
    type Index = Index<0>;
    type Inner = Vec<usize>;

    fn payload(&self) -> &Self::Inner {
        &self.0
    }

    fn as_ref(&self) -> &Self::Inner {
        &self.0
    }

    fn as_mut(&mut self) -> &mut Self::Inner {
        &mut self.0
    }
}

struct __hidden_str(String);

impl Capability for __hidden_str {
    type Index = Index<1>;
    type Inner = String;

    fn payload(&self) -> &Self::Inner {
        &self.0
    }

    fn as_ref(&self) -> &Self::Inner {
        &self.0
    }

    fn as_mut(&mut self) -> &mut Self::Inner {
        &mut self.0
    }
}

// Acquire reference to first element of `data_store`.
#[derive(Default)]
struct first;

impl<'_0, '_1, '_2, '_3> CxFnOnce<'_0, '_1, '_2, '_3, ()> for first {
    type Output = Option<SelectT<'_0, '_1, '_2, '_3, Shared, usize, __data_store>>;
    type Context = MakeContext<(Select<'_0, '_1, '_2, '_3, Shared, __data_store>,)>;

    fn cx_call_once(mut self, args: (), cx: Self::Context) -> Self::Output {
        self.cx_call_mut(args, cx)
    }
}

impl<'_0, '_1, '_2, '_3> CxFnMut<'_0, '_1, '_2, '_3, ()> for first {
    fn cx_call_mut(&mut self, args: (), cx: Self::Context) -> Self::Output {
        self.cx_call(args, cx)
    }
}

impl<'_0, '_1, '_2, '_3> CxFn<'_0, '_1, '_2, '_3, ()> for first {
    fn cx_call(&self, (): (), cx: Self::Context) -> Self::Output {
        let data_store = cx.extract_ref::<__data_store>();
        data_store.first()
    }
}

// Return length of hidden string.
#[derive(Default)]
struct hidden_len;

impl<'_0, '_1, '_2, '_3> CxFnOnce<'_0, '_1, '_2, '_3, ()> for hidden_len {
    type Output = usize;
    type Context = MakeContext<(Select<'_0, '_1, '_2, '_3, Shared, __hidden_str>,)>;

    fn cx_call_once(mut self, args: (), cx: Self::Context) -> Self::Output {
        self.cx_call_mut(args, cx)
    }
}

impl<'_0, '_1, '_2, '_3> CxFnMut<'_0, '_1, '_2, '_3, ()> for hidden_len {
    fn cx_call_mut(&mut self, args: (), cx: Self::Context) -> Self::Output {
        self.cx_call(args, cx)
    }
}

impl<'_0, '_1, '_2, '_3> CxFn<'_0, '_1, '_2, '_3, ()> for hidden_len {
    fn cx_call(&self, (): (), cx: Self::Context) -> Self::Output {
        cx.extract_ref::<__hidden_str>().len()
    }
}

// Compare the hidden string to the argument.
#[derive(Default)]
struct compare_to;

impl<'_0, '_1, '_2, '_3> CxFnOnce<'_0, '_1, '_2, '_3, (&str,)> for compare_to {
    type Output = bool;
    type Context = MakeContext<(Select<'_0, '_1, '_2, '_3, Shared, __hidden_str>,)>;

    fn cx_call_once(mut self, args: (&str,), cx: Self::Context) -> Self::Output {
        self.cx_call_mut(args, cx)
    }
}

impl<'_0, '_1, '_2, '_3> CxFnMut<'_0, '_1, '_2, '_3, (&str,)> for compare_to {
    fn cx_call_mut(&mut self, args: (&str,), cx: Self::Context) -> Self::Output {
        self.cx_call(args, cx)
    }
}

impl<'_0, '_1, '_2, '_3> CxFn<'_0, '_1, '_2, '_3, (&str,)> for compare_to {
    fn cx_call(&self, (s,): (&str,), cx: Self::Context) -> Self::Output {
        cx.extract_ref::<__hidden_str>() == s
    }
}

// Calls `compare_to` with a fixed argument: its context is the callee's context.
#[derive(Default)]
struct is_aliens;

impl<'_0, '_1, '_2, '_3> CxFnOnce<'_0, '_1, '_2, '_3, ()> for is_aliens {
    type Output = bool;
    type Context = <compare_to as CxFnOnce<'_0, '_1, '_2, '_3, (&'static str,)>>::Context;

    fn cx_call_once(mut self, args: (), cx: Self::Context) -> Self::Output {
        self.cx_call_mut(args, cx)
    }
}

impl<'_0, '_1, '_2, '_3> CxFnMut<'_0, '_1, '_2, '_3, ()> for is_aliens {
    fn cx_call_mut(&mut self, args: (), cx: Self::Context) -> Self::Output {
        self.cx_call(args, cx)
    }
}

impl<'_0, '_1, '_2, '_3> CxFn<'_0, '_1, '_2, '_3, ()> for is_aliens {
    fn cx_call(&self, (): (), cx: Self::Context) -> Self::Output {
        compare_to::default().cx_call(("aliens",), cx)
    }
}

// Needs both capabilities: the context is the unification of the callees' contexts.
#[derive(Default)]
struct useful_work;

impl<'_0, '_1, '_2, '_3> CxFnOnce<'_0, '_1, '_2, '_3, ()> for useful_work {
    type Output = bool;
    type Context = Unify<(
        <first as CxFnOnce<'_0, '_1, '_2, '_3, ()>>::Context,
        <hidden_len as CxFnOnce<'_0, '_1, '_2, '_3, ()>>::Context,
    )>;

    fn cx_call_once(mut self, args: (), cx: Self::Context) -> Self::Output {
        self.cx_call_mut(args, cx)
    }
}

impl<'_0, '_1, '_2, '_3> CxFnMut<'_0, '_1, '_2, '_3, ()> for useful_work {
    fn cx_call_mut(&mut self, args: (), cx: Self::Context) -> Self::Output {
        self.cx_call(args, cx)
    }
}

impl<'_0, '_1, '_2, '_3> CxFn<'_0, '_1, '_2, '_3, ()> for useful_work {
    fn cx_call(&self, (): (), mut cx: Self::Context) -> Self::Output {
        let first_item = {
            let cx = cx.reborrow().coerce();
            first::default().cx_call((), cx)
        };
        let length = {
            let cx = cx.reborrow().coerce();
            hidden_len::default().cx_call((), cx)
        };
        first_item.map(|value| *value == length).unwrap_or_default()
    }
}

// Writes to `data_store` and calls `compare_to` with a capability supplied in place.
#[derive(Default)]
struct do_work;

impl<'_0, '_1, '_2, '_3> CxFnOnce<'_0, '_1, '_2, '_3, ()> for do_work {
    type Output = bool;
    type Context = Unify<(
        LimitBy<
            <compare_to as CxFnOnce<'_0, '_1, '_2, '_3, (&'static str,)>>::Context,
            HaveLocalReferenceTo<(Select<'_0, '_1, '_2, '_3, Mutable, __hidden_str>,)>,
        >,
        MakeContext<(Select<'_0, '_1, '_2, '_3, Mutable, __data_store>,)>,
    )>;

    fn cx_call_once(mut self, args: (), cx: Self::Context) -> Self::Output {
        self.cx_call_mut(args, cx)
    }
}

impl<'_0, '_1, '_2, '_3> CxFnMut<'_0, '_1, '_2, '_3, ()> for do_work {
    fn cx_call_mut(&mut self, args: (), cx: Self::Context) -> Self::Output {
        self.cx_call(args, cx)
    }
}

impl<'_0, '_1, '_2, '_3> CxFn<'_0, '_1, '_2, '_3, ()> for do_work {
    fn cx_call(&self, (): (), mut cx: Self::Context) -> Self::Output {
        cx.extract_mut::<__data_store>().push(42);
        let hidden_str = __hidden_str("treasure".to_string());
        let cx = cx.reborrow().push(&hidden_str);
        let cx = cx.coerce();
        compare_to::default().cx_call(("aliens",), cx)
    }
}

#[test]
fn contextual_call_reads_a_capability() {
    let data_store = __data_store(vec![3_usize]);
    let cx = EmptyStore::new().push(&data_store);
    let first_item = first::default().cx_call((), cx);
    assert_eq!(first_item, Some(&3));
}

#[test]
fn reborrowed_context_serves_several_calls() {
    let hidden = __hidden_str("treasure".to_string());
    let mut cx = EmptyStore::new().push(&hidden);
    assert!(!is_aliens::default().cx_call((), cx.reborrow()));
    assert!(compare_to::default().cx_call(("treasure",), cx.reborrow()));
}

#[test]
fn unified_context_is_split_between_callees() {
    let data_store = __data_store(vec![6_usize]);
    let hidden_str = __hidden_str("aliens".to_string());
    let cx = EmptyStore::new().push(&data_store).push(&hidden_str);
    assert!(useful_work::default().cx_call((), cx));
}

#[test]
fn capability_supplied_in_place_is_removed_from_the_context() {
    let mut data_store = __data_store(vec![3]);
    let cx = EmptyStore::new().push(&mut data_store);
    assert!(!do_work::default().cx_call((), cx));
    assert_eq!(data_store.0, vec![3, 42]);
}
