use rust_context_emulation::context::handle::{HandleMut, HandleRef};
use rust_context_emulation::context::store::{
    EmptyStore, ExtractMut, ExtractRef, HaveLocalReferenceTo, MakeContext, Push, Store,
};
use rust_context_emulation::indexed_tuple::Index;
use rust_context_emulation::ops::{Coerce, LimitBy, Reborrow, Unify};
use rust_context_emulation::option::{Just, Nothing};
use rust_context_emulation::tuple4::Tuple4;
use rust_context_emulation::Capability;

struct DataStore(Vec<usize>);

impl Capability for DataStore {
    type Index = Index<0>;
    type Inner = Vec<usize>;

    fn payload(&self) -> &Self::Inner {
        &self.0
    }

    fn as_ref(&self) -> &Self::Inner {
        &self.0
    }

    fn as_mut(&mut self) -> &mut Self::Inner {
        &mut self.0
    }
}

struct HiddenStr(String);

impl Capability for HiddenStr {
    type Index = Index<1>;
    type Inner = String;

    fn payload(&self) -> &Self::Inner {
        &self.0
    }

    fn as_ref(&self) -> &Self::Inner {
        &self.0
    }

    fn as_mut(&mut self) -> &mut Self::Inner {
        &mut self.0
    }
}

struct Counter(u64);

impl Capability for Counter {
    type Index = Index<3>;
    type Inner = u64;

    fn payload(&self) -> &Self::Inner {
        &self.0
    }

    fn as_ref(&self) -> &Self::Inner {
        &self.0
    }

    fn as_mut(&mut self) -> &mut Self::Inner {
        &mut self.0
    }
}

#[test]
fn empty_store_holds_nothing() {
    let cx: Store<Tuple4<Nothing, Nothing, Nothing, Nothing>> = EmptyStore::new();
    let _same: MakeContext<()> = cx;
}

#[test]
fn extract_ref_after_push() {
    let data = DataStore(vec![3]);
    let cx = EmptyStore::new().push(&data);
    assert_eq!(cx.extract_ref::<DataStore>(), &vec![3]);
    assert!(std::ptr::eq(ExtractRef::<DataStore>::extract_ref(&cx), &data));
}

#[test]
fn pushes_into_different_slots_keep_each_other() {
    let data = DataStore(vec![6]);
    let hidden = HiddenStr("aliens".to_string());
    let cx = EmptyStore::new().push(&data).push(&hidden);
    assert_eq!(cx.extract_ref::<DataStore>(), &vec![6]);
    assert_eq!(cx.extract_ref::<HiddenStr>(), "aliens");
}

#[test]
fn push_overwrites_the_previous_capability_of_the_same_slot() {
    let first = DataStore(vec![1]);
    let second = DataStore(vec![2]);
    let cx = EmptyStore::new().push(&first).push(&second);
    assert_eq!(cx.extract_ref::<DataStore>(), &vec![2]);
}

#[test]
fn push_mut_overwrites_a_shared_capability() {
    let first = DataStore(vec![1]);
    let mut second = DataStore(vec![2]);
    {
        let mut cx = EmptyStore::new().push(&first).push(&mut second);
        cx.extract_mut::<DataStore>().push(3);
    }
    assert_eq!(first.0, vec![1]);
    assert_eq!(second.0, vec![2, 3]);
}

#[test]
fn extract_mut_writes_reach_the_capability() {
    let mut data = DataStore(vec![3]);
    {
        let mut cx = EmptyStore::new().push(&mut data);
        let v = cx.extract_mut::<DataStore>();
        assert_eq!(v, &vec![3]);
        v.push(42);
        assert_eq!(cx.extract_mut::<DataStore>(), &vec![3, 42]);
        ExtractMut::<DataStore>::extract_mut(&mut cx).0.push(7);
    }
    assert_eq!(data.0, vec![3, 42, 7]);
}

#[test]
fn extract_mut_leaves_other_slots_alone() {
    let mut counter = Counter(1);
    let hidden = HiddenStr("treasure".to_string());
    {
        let mut cx = EmptyStore::new().push(&hidden).push(&mut counter);
        *cx.extract_mut::<Counter>() += 1;
        assert_eq!(cx.extract_ref::<HiddenStr>(), "treasure");
        assert_eq!(*cx.extract_mut::<Counter>(), 2);
    }
    assert_eq!(counter.0, 2);
}

#[test]
fn reborrow_sees_the_same_capabilities() {
    let data = DataStore(vec![9]);
    let mut counter = Counter(0);
    let mut cx = EmptyStore::new().push(&data).push(&mut counter);
    {
        let mut re = cx.reborrow();
        assert_eq!(re.extract_ref::<DataStore>(), &vec![9]);
        *re.extract_mut::<Counter>() = 5;
    }
    assert_eq!(*cx.extract_mut::<Counter>(), 5);
    assert_eq!(cx.extract_ref::<DataStore>(), &vec![9]);
}

#[test]
fn coerce_downgrades_mutable_to_shared() {
    let mut data = DataStore(vec![1, 2]);
    let mut cx = EmptyStore::new().push(&mut data);
    let shared: MakeContext<(&DataStore,)> = cx.reborrow().coerce();
    assert_eq!(shared.extract_ref::<DataStore>(), &vec![1, 2]);
}

#[test]
fn coerce_removes_capabilities() {
    let data = DataStore(vec![1]);
    let hidden = HiddenStr("x".to_string());
    let cx = EmptyStore::new().push(&data).push(&hidden);
    let only_hidden: MakeContext<(&HiddenStr,)> = cx.coerce();
    assert_eq!(only_hidden.extract_ref::<HiddenStr>(), "x");
    let _empty: EmptyStore = only_hidden.coerce();
}

#[test]
fn unified_context_coerces_back_to_each_part() {
    let data = DataStore(vec![4]);
    let mut hidden = HiddenStr("h".to_string());
    type Both<'a, 'b> = Unify<(MakeContext<(&'a DataStore,)>, MakeContext<(&'b mut HiddenStr,)>)>;
    let mut cx: Both = EmptyStore::new().push(&data).push(&mut hidden);
    let part_a: MakeContext<(&DataStore,)> = cx.reborrow().coerce();
    assert_eq!(part_a.extract_ref::<DataStore>(), &vec![4]);
    let mut part_b: MakeContext<(&mut HiddenStr,)> = cx.reborrow().coerce();
    part_b.extract_mut::<HiddenStr>().push('!');
    let part_b_shared: MakeContext<(&HiddenStr,)> = cx.coerce();
    assert_eq!(part_b_shared.extract_ref::<HiddenStr>(), "h!");
}

#[test]
fn unify_of_shared_and_mutable_is_mutable() {
    let mut data = DataStore(vec![]);
    let cx: Unify<(MakeContext<(&DataStore,)>, MakeContext<(&mut DataStore,)>)> =
        EmptyStore::new().push(&mut data);
    let _explicit: Store<Tuple4<Just<HandleMut<DataStore>>, Nothing, Nothing, Nothing>> = cx;
}

#[test]
fn make_context_of_several_references() {
    let data = DataStore(vec![]);
    let mut counter = Counter(0);
    let cx: MakeContext<(&DataStore, &mut Counter)> = EmptyStore::new().push(&data).push(&mut counter);
    let _explicit: Store<
        Tuple4<Just<HandleRef<DataStore>>, Nothing, Nothing, Just<HandleMut<Counter>>>,
    > = cx;
}

#[test]
fn limit_by_removes_capabilities_held_mutably_in_place() {
    type Full<'a, 'b> = MakeContext<(&'a DataStore, &'b HiddenStr)>;
    type Limited<'a, 'b> = LimitBy<Full<'a, 'b>, HaveLocalReferenceTo<(&'b mut HiddenStr,)>>;
    let data = DataStore(vec![8]);
    let cx: Limited = EmptyStore::new().push(&data);
    let explicit: MakeContext<(&DataStore,)> = cx;
    assert_eq!(explicit.extract_ref::<DataStore>(), &vec![8]);
}

#[test]
fn limit_by_keeps_shared_access_when_mutable_is_held_locally() {
    type Full<'a> = MakeContext<(&'a mut DataStore,)>;
    type Limited<'a> = LimitBy<Full<'a>, HaveLocalReferenceTo<(&'a DataStore,)>>;
    let mut data = DataStore(vec![1]);
    let cx: Limited = EmptyStore::new().push(&data);
    let _explicit: MakeContext<(&DataStore,)> = cx;
    data.0.push(2);
    assert_eq!(data.0, vec![1, 2]);
}

#[test]
fn shared_context_can_be_cloned_and_copied() {
    let data = DataStore(vec![1, 2]);
    let hidden = HiddenStr("aliens".to_string());
    let cx = EmptyStore::new().push(&data).push(&hidden);
    let cloned = cx.clone();
    let copied = cx;
    let only_data: MakeContext<(&DataStore,)> = cloned.coerce();
    let only_hidden: MakeContext<(&HiddenStr,)> = copied.coerce();
    assert!(std::ptr::eq(only_data.extract_ref::<DataStore>(), &data.0));
    assert!(std::ptr::eq(only_hidden.extract_ref::<HiddenStr>(), &hidden.0));
    assert_eq!(cx.extract_ref::<DataStore>(), &vec![1, 2]);
    assert_eq!(cx.extract_ref::<HiddenStr>(), "aliens");
}

#[test]
fn reborrow_leaves_shared_slots_as_they_were() {
    let data = DataStore(vec![5]);
    let mut counter = Counter(0);
    let mut cx = EmptyStore::new().push(&data).push(&mut counter);
    {
        let mut re = cx.reborrow();
        *re.extract_mut::<Counter>() += 1;
    }
    assert!(std::ptr::eq(cx.extract_ref::<DataStore>(), &data.0));
    assert_eq!(*cx.extract_mut::<Counter>(), 1);
}

#[test]
fn coercing_a_mutable_capability_away_leaves_it_unchanged() {
    let mut data = DataStore(vec![4]);
    {
        let cx = EmptyStore::new().push(&mut data);
        let _empty: EmptyStore = cx.coerce();
    }
    assert_eq!(data.0, vec![4]);
}

#[test]
fn second_push_of_a_capability_replaces_the_first() {
    let first = DataStore(vec![1]);
    let second = DataStore(vec![2]);
    let twice = EmptyStore::new().push(&first).push(&second);
    let once = EmptyStore::new().push(&second);
    let same_type: Store<Tuple4<Just<HandleRef<DataStore>>, Nothing, Nothing, Nothing>> = twice;
    assert!(std::ptr::eq(same_type.extract_ref::<DataStore>(), once.extract_ref::<DataStore>()));
}

#[test]
fn pushes_of_different_capabilities_commute() {
    let data = DataStore(vec![1]);
    let counter = Counter(7);
    let a = EmptyStore::new().push(&data).push(&counter);
    let b = EmptyStore::new().push(&counter).push(&data);
    let a: Store<Tuple4<Just<HandleRef<DataStore>>, Nothing, Nothing, Just<HandleRef<Counter>>>> = a;
    let b: Store<Tuple4<Just<HandleRef<DataStore>>, Nothing, Nothing, Just<HandleRef<Counter>>>> = b;
    assert!(std::ptr::eq(a.extract_ref::<DataStore>(), b.extract_ref::<DataStore>()));
    assert!(std::ptr::eq(a.extract_ref::<Counter>(), b.extract_ref::<Counter>()));
}

#[test]
fn coercing_to_the_own_type_and_in_two_steps() {
    let mut data = DataStore(vec![3]);
    let hidden = HiddenStr("h".to_string());
    {
        let cx = EmptyStore::new().push(&mut data).push(&hidden);
        let mut same: MakeContext<(&mut DataStore, &HiddenStr)> = cx.coerce();
        same.extract_mut::<DataStore>().push(4);
        {
            let step: MakeContext<(&DataStore, &HiddenStr)> = same.reborrow().coerce();
            let last: MakeContext<(&DataStore,)> = step.coerce();
            assert_eq!(last.extract_ref::<DataStore>(), &vec![3, 4]);
        }
        let one_step: MakeContext<(&DataStore,)> = same.coerce();
        assert_eq!(one_step.extract_ref::<DataStore>(), &vec![3, 4]);
    }
    assert_eq!(data.0, vec![3, 4]);
}
