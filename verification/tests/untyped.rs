use handle_store::untyped::{StoreError, StoreHandleUntyped, TypeTag, U32_TAG, U64_TAG};
use handle_store::{Store, StoreHandle};

const UNTYPED_TEST_TAG: u128 = 0xa0a0_a0a0_a0a0_a0a0_a0a0_a0a0_a0a0_a0a0;
const FOO_TAG: u128 = 0x0f00_0f00_0f00_0f00_0f00_0f00_0f00_0f00;
const BAR_TAG: u128 = 0x0ba4_0ba4_0ba4_0ba4_0ba4_0ba4_0ba4_0ba4;

#[derive(Debug, PartialEq, Eq, Clone)]
struct UntypedTest;

impl TypeTag for UntypedTest {
    fn spec_tag() -> u128 {
        UNTYPED_TEST_TAG
    }

    fn tag() -> u128 {
        UNTYPED_TEST_TAG
    }
}

#[derive(Debug, PartialEq, Eq, Clone)]
struct Foo(u32);

impl TypeTag for Foo {
    fn spec_tag() -> u128 {
        FOO_TAG
    }

    fn tag() -> u128 {
        FOO_TAG
    }
}

#[derive(Debug, PartialEq, Eq, Clone)]
struct Bar(u32);

impl TypeTag for Bar {
    fn spec_tag() -> u128 {
        BAR_TAG
    }

    fn tag() -> u128 {
        BAR_TAG
    }
}

#[test]
fn untyped_should_work() {
    let mut store = Store::new();
    let val = UntypedTest {};
    let handle = store.insert(val.clone());
    let untyped = handle.to_untyped();

    let retrieved = store.get(&untyped.try_typed().unwrap());

    assert_eq!(handle.id(), untyped.id());
    assert_eq!(untyped.type_id(), UntypedTest::tag());
    assert_eq!(retrieved, Some(&val));
}

#[test]
fn scenario_erase_then_cast() {
    let mut store = Store::new();
    let h: StoreHandle<Foo> = store.insert(Foo(7));
    let u = h.to_untyped();

    let same = u.try_typed::<Foo>();
    assert!(same.is_some());
    assert_eq!(same.unwrap().id(), h.id());

    let other = u.try_typed::<Bar>();
    assert!(other.is_none());
}

#[test]
fn round_trip_resolves_to_same_value() {
    let mut store = Store::new();
    let h = store.insert(1234u64);
    let recovered = h.to_untyped().try_typed::<u64>().unwrap();
    assert_eq!(recovered.id(), h.id());
    assert_eq!(store.get(&recovered), Some(&1234));
}

#[test]
fn fresh_untyped_carries_the_tag() {
    let u = StoreHandleUntyped::new::<u64>();
    assert_eq!(u.type_id(), U64_TAG);
    let v = StoreHandleUntyped::new::<u32>();
    assert_eq!(v.type_id(), U32_TAG);
}

#[test]
fn forced_cast_succeeds_on_matching_tag() {
    let mut store = Store::new();
    let h = store.insert(5u32);
    let u = h.to_untyped();
    let back = StoreHandle::<u32>::try_from(u).unwrap();
    assert_eq!(back.id(), h.id());
    assert_eq!(store.get(&back), Some(&5));
}

#[test]
fn forced_cast_fails_with_both_tags() {
    let mut store = Store::new();
    let h = store.insert(5u64);
    let u = h.to_untyped();
    let res = StoreHandle::<u32>::try_from(u);
    match res {
        Ok(_) => panic!("cast to a type with another tag must fail"),
        Err(StoreError::InvalidCast { from, to }) => {
            assert_eq!(from, U64_TAG);
            assert_eq!(to, U32_TAG);
        }
    }
}

#[test]
fn conversion_traits_agree_with_the_methods() {
    let mut store = Store::new();
    let h = store.insert(Foo(1));
    let u: StoreHandleUntyped = h.into();
    assert_eq!(u.id(), h.id());
    assert_eq!(u.type_id(), Foo::tag());

    let ok: Result<StoreHandle<Foo>, StoreError> = u.try_into();
    assert_eq!(ok.unwrap().id(), h.id());

    let err: Result<StoreHandle<Bar>, StoreError> = u.try_into();
    match err {
        Ok(_) => panic!("cast to a type with another tag must fail"),
        Err(StoreError::InvalidCast { from, to }) => {
            assert_eq!(from, Foo::tag());
            assert_eq!(to, Bar::tag());
        }
    }
}

#[test]
fn try_typed_rejects_another_tag() {
    let u = StoreHandleUntyped::new::<u64>();
    assert!(u.try_typed::<u32>().is_none());
    assert!(u.try_typed::<u64>().is_some());
}
