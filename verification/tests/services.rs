//! Tests for the service registry and the accessor machinery: last-write
//! semantics, checked downcasts, context persistence and round trips.

use dotrix::ecs::{Const, Context, Entity, FetchError, Mut, Priority, System, SystemContext, Systemized};
use dotrix::services::{IntoService, Services};

/// Store value of this test application.
enum Store {
    Counter(Counter),
    Flag(Flag),
    Gauge(Gauge),
}

struct Counter {
    value: u64,
}

struct Flag {
    on: bool,
}

struct Gauge {
    level: u64,
}

impl IntoService for Gauge {
    type Store = Store;

    // The trait's ghost items compile to stubs that are never executed.
    fn spec_key() -> u64 {
        unreachable!()
    }

    fn spec_pack(self) -> Store {
        unreachable!()
    }

    fn spec_unpack(_: Store) -> Option<Self> {
        unreachable!()
    }

    fn pack_unpack(_: Self) {
        unreachable!()
    }

    fn unpack_pack(_: Store, _: Self) {
        unreachable!()
    }

    fn key() -> u64 {
        3
    }

    fn pack(self) -> Store {
        Store::Gauge(self)
    }

    fn unpack(v: Store) -> Result<Self, Store> {
        match v {
            Store::Gauge(g) => Ok(g),
            other => Err(other),
        }
    }

    fn unpack_ref(v: &Store) -> Option<&Self> {
        match v {
            Store::Gauge(g) => Some(g),
            _ => None,
        }
    }
}

impl IntoService for Counter {
    type Store = Store;

    // The trait's ghost items compile to stubs that are never executed.
    fn spec_key() -> u64 {
        unreachable!()
    }

    fn spec_pack(self) -> Store {
        unreachable!()
    }

    fn spec_unpack(_: Store) -> Option<Self> {
        unreachable!()
    }

    fn pack_unpack(_: Self) {
        unreachable!()
    }

    fn unpack_pack(_: Store, _: Self) {
        unreachable!()
    }

    fn key() -> u64 {
        1
    }

    fn pack(self) -> Store {
        Store::Counter(self)
    }

    fn unpack(v: Store) -> Result<Self, Store> {
        match v {
            Store::Counter(c) => Ok(c),
            other => Err(other),
        }
    }

    fn unpack_ref(v: &Store) -> Option<&Self> {
        match v {
            Store::Counter(c) => Some(c),
            _ => None,
        }
    }
}

impl IntoService for Flag {
    type Store = Store;

    // The trait's ghost items compile to stubs that are never executed.
    fn spec_key() -> u64 {
        unreachable!()
    }

    fn spec_pack(self) -> Store {
        unreachable!()
    }

    fn spec_unpack(_: Store) -> Option<Self> {
        unreachable!()
    }

    fn pack_unpack(_: Self) {
        unreachable!()
    }

    fn unpack_pack(_: Store, _: Self) {
        unreachable!()
    }

    fn key() -> u64 {
        2
    }

    fn pack(self) -> Store {
        Store::Flag(self)
    }

    fn unpack(v: Store) -> Result<Self, Store> {
        match v {
            Store::Flag(f) => Ok(f),
            other => Err(other),
        }
    }

    fn unpack_ref(v: &Store) -> Option<&Self> {
        match v {
            Store::Flag(f) => Some(f),
            _ => None,
        }
    }
}

#[test]
fn registry_add_get_take() {
    let mut services: Services<Store> = Services::new();
    assert!(!services.contains(1));
    assert!(services.get(1).is_none());

    services.add_service(Counter { value: 5 });
    assert!(services.contains(1));
    assert_eq!(services.get_service::<Counter>().unwrap().value, 5);
    assert!(services.get_service::<Flag>().is_none());

    match services.take(1) {
        Some(Store::Counter(c)) => assert_eq!(c.value, 5),
        _ => panic!("expected the stored counter"),
    }
    assert!(!services.contains(1));
}

/// Registering a service type twice silently replaces the first instance:
/// last write wins.
#[test]
fn duplicate_registration_replaces() {
    let mut services: Services<Store> = Services::new();
    services.add_service(Counter { value: 1 });
    services.add_service(Counter { value: 9 });
    assert_eq!(services.get_service::<Counter>().unwrap().value, 9);
}

/// A value of another service type under the requested key is rejected by
/// the checked downcast.
#[test]
fn type_mismatch_is_reported() {
    let mut services: Services<Store> = Services::new();
    // A value of the wrong variant registered under Counter's key.
    services.add(1, Store::Flag(Flag { on: true }));

    fn reads_counter(counter: Mut<Counter>) -> Mut<Counter> {
        counter
    }

    let mut s = System::from(reads_counter);
    let result = s.data.run(&mut services);
    assert_eq!(result, Err(FetchError::TypeMismatch { key: 1 }));
    // The mismatched value is still registered, untouched.
    match services.get(1) {
        Some(Store::Flag(f)) => assert!(f.on),
        _ => panic!("expected the flag to stay registered"),
    }
}

/// What a system's mutable accessor wrote is exactly what a later direct
/// fetch sees; a no-op system leaves the service unchanged however often
/// it runs.
#[test]
fn mutation_round_trip_and_idempotence() {
    let mut services: Services<Store> = Services::new();
    services.add_service(Counter { value: 40 });

    fn adds_two(mut counter: Mut<Counter>) -> Mut<Counter> {
        counter.value.value += 2;
        counter
    }

    let mut s = System::from(adds_two);
    s.data.run(&mut services).unwrap();
    assert_eq!(services.get_service::<Counter>().unwrap().value, 42);

    fn does_nothing(counter: Mut<Counter>) -> Mut<Counter> {
        counter
    }

    let mut noop = System::from(does_nothing);
    noop.data.run(&mut services).unwrap();
    noop.data.run(&mut services).unwrap();
    assert_eq!(services.get_service::<Counter>().unwrap().value, 42);
}

#[derive(Default)]
struct Ticks(u64);

impl SystemContext for Ticks {
    // The trait's ghost item compiles to a stub that is never executed.
    fn spec_initial() -> Self {
        unreachable!()
    }

    fn initial() -> Self {
        Ticks::default()
    }
}

/// The context starts from its default value and the value mutated during
/// one invocation is exactly the one observed by the next.
#[test]
fn context_persists_between_invocations() {
    let mut services: Services<Store> = Services::new();
    services.add_service(Counter { value: 0 });

    fn ticking(
        mut ctx: Context<Ticks>,
        mut counter: Mut<Counter>,
    ) -> (Context<Ticks>, Mut<Counter>) {
        ctx.value.0 += 1;
        counter.value.value = ctx.value.0;
        (ctx, counter)
    }

    let mut s = System::from(ticking);
    s.data.run(&mut services).unwrap();
    assert_eq!(services.get_service::<Counter>().unwrap().value, 1);
    s.data.run(&mut services).unwrap();
    assert_eq!(services.get_service::<Counter>().unwrap().value, 2);
    s.data.run(&mut services).unwrap();
    assert_eq!(services.get_service::<Counter>().unwrap().value, 3);
}

/// A system over two accessors sees both services; a second accessor to
/// the same service within one invocation is refused instead of aliasing.
#[test]
fn two_accessors_and_aliasing_check() {
    let mut services: Services<Store> = Services::new();
    services.add_service(Counter { value: 3 });
    services.add_service(Flag { on: false });

    fn copy_parity(mut counter: Mut<Counter>, mut flag: Mut<Flag>) -> (Mut<Counter>, Mut<Flag>) {
        flag.value.on = counter.value.value % 2 == 1;
        counter.value.value += 1;
        (counter, flag)
    }

    let mut s = System::from(copy_parity);
    s.data.run(&mut services).unwrap();
    assert!(services.get_service::<Flag>().unwrap().on);
    assert_eq!(services.get_service::<Counter>().unwrap().value, 4);

    fn aliasing(a: Mut<Counter>, b: Mut<Counter>) -> (Mut<Counter>, Mut<Counter>) {
        (a, b)
    }

    let mut s = System::from(aliasing);
    let result = s.data.run(&mut services);
    assert_eq!(result, Err(FetchError::MissingService { key: 1 }));
    // The first accessor's service was restored untouched.
    assert_eq!(services.get_service::<Counter>().unwrap().value, 4);
}

/// A shared accessor observes exactly the value a mutable accessor last
/// wrote, without being able to change it.
#[test]
fn shared_accessor_sees_last_write() {
    let mut services: Services<Store> = Services::new();
    services.add_service(Counter { value: 0 });
    services.add_service(Flag { on: false });

    fn writes_five(mut counter: Mut<Counter>) -> Mut<Counter> {
        counter.value.value = 5;
        counter
    }

    fn reads_counter(counter: Const<Counter>, mut flag: Mut<Flag>) -> (Const<Counter>, Mut<Flag>) {
        flag.value.on = counter.get().value == 5;
        (counter, flag)
    }

    let mut writer = System::from(writes_five);
    writer.data.run(&mut services).unwrap();

    let mut reader = System::from(reads_counter);
    reader.data.run(&mut services).unwrap();
    assert!(services.get_service::<Flag>().unwrap().on);
    // The shared access left the counter as written.
    assert_eq!(services.get_service::<Counter>().unwrap().value, 5);
}

/// A system over three accessors resolves them in declaration order and
/// restores all three.
#[test]
fn three_accessors_resolve_in_order() {
    let mut services: Services<Store> = Services::new();
    services.add_service(Counter { value: 10 });
    services.add_service(Flag { on: false });
    services.add_service(Gauge { level: 0 });

    fn spread(
        counter: Const<Counter>,
        mut flag: Mut<Flag>,
        mut gauge: Mut<Gauge>,
    ) -> (Const<Counter>, Mut<Flag>, Mut<Gauge>) {
        flag.value.on = counter.get().value > 5;
        gauge.value.level = counter.get().value * 2;
        (counter, flag, gauge)
    }

    let mut s = System::from(spread);
    s.data.run(&mut services).unwrap();
    assert!(services.get_service::<Flag>().unwrap().on);
    assert_eq!(services.get_service::<Gauge>().unwrap().level, 20);
    assert_eq!(services.get_service::<Counter>().unwrap().value, 10);
}

/// The named priority presets order as documented.
#[test]
fn priority_values() {
    assert_eq!(Priority::Low.value(), 1024);
    assert_eq!(Priority::Normal.value(), 2048);
    assert_eq!(Priority::High.value(), 4096);
    assert_eq!(Priority::Custom(7).value(), 7);
}

/// An entity handle is nothing but its numeric id.
#[test]
fn entity_id_round_trip() {
    let e = Entity::from(77);
    assert_eq!(e.id(), 77);
    assert_eq!(e, Entity(77));
}
