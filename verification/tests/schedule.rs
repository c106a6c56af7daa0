//! Tests for the dispatcher: run-level grouping, priority ordering, the
//! lifecycle state machine and sequential service effects.

use dotrix::ecs::{Mut, Priority, RunLevel, System};
use dotrix::schedule::Scheduler;
use dotrix::services::{IntoService, Services};

/// Store value of this test application.
enum Store {
    Recorder(Recorder),
}

/// Records which systems ran, in order, and a shared counter.
struct Recorder {
    order: Vec<u64>,
    counter: u64,
}

impl IntoService for Recorder {
    type Store = Store;

    // The trait's ghost items compile to stubs that are never executed.
    fn spec_key() -> u64 {
        unreachable!()
    }

    fn spec_pack(self) -> Store {
        unreachable!()
    }

    fn spec_unpack(_: Store) -> Option<Self> {
        unreachable!()
    }

    fn pack_unpack(_: Self) {
        unreachable!()
    }

    fn unpack_pack(_: Store, _: Self) {
        unreachable!()
    }

    fn key() -> u64 {
        7
    }

    fn pack(self) -> Store {
        Store::Recorder(self)
    }

    fn unpack(v: Store) -> Result<Self, Store> {
        match v {
            Store::Recorder(r) => Ok(r),
        }
    }

    fn unpack_ref(v: &Store) -> Option<&Self> {
        match v {
            Store::Recorder(r) => Some(r),
        }
    }
}

type RecorderSystem = fn(Mut<Recorder>) -> Mut<Recorder>;

fn system_x(mut recorder: Mut<Recorder>) -> Mut<Recorder> {
    recorder.value.order.push(10);
    recorder
}

fn system_y(mut recorder: Mut<Recorder>) -> Mut<Recorder> {
    recorder.value.order.push(20);
    recorder
}

fn increment_first(mut recorder: Mut<Recorder>) -> Mut<Recorder> {
    assert_eq!(recorder.value.counter, 0);
    recorder.value.counter += 1;
    recorder
}

fn increment_second(mut recorder: Mut<Recorder>) -> Mut<Recorder> {
    assert_eq!(recorder.value.counter, 1);
    recorder.value.counter += 1;
    recorder
}

fn fresh_services() -> Services<Store> {
    let mut services: Services<Store> = Services::new();
    services.add_service(Recorder { order: Vec::new(), counter: 0 });
    services
}

/// A `Low` system registered before a `High` system in the same run level
/// is dispatched after it.
#[test]
fn priority_order_high_before_low() {
    let mut services = fresh_services();
    let mut scheduler = Scheduler::new();

    let x: RecorderSystem = system_x;
    let y: RecorderSystem = system_y;
    scheduler.add_system(System::from(("tests::system_x", x)).with(Priority::Low));
    scheduler.add_system(System::from(("tests::system_y", y)).with(Priority::High));

    assert_eq!(
        scheduler.names(RunLevel::Standard),
        vec!["tests::system_y", "tests::system_x"]
    );

    let errors = scheduler.run_startup(&mut services);
    assert!(errors.is_empty());
    let errors = scheduler.run_cycle(&mut services);
    assert!(errors.is_empty());

    let recorder = services.get_service::<Recorder>().unwrap();
    assert_eq!(recorder.order, vec![20, 10]);
}

/// Equal priorities keep their registration order (stable dispatch).
#[test]
fn equal_priority_keeps_registration_order() {
    let mut services = fresh_services();
    let mut scheduler = Scheduler::new();

    let x: RecorderSystem = system_x;
    let y: RecorderSystem = system_y;
    scheduler.add_system(System::from(("tests::system_x", x)));
    scheduler.add_system(System::from(("tests::system_y", y)));

    let errors = scheduler.run_startup(&mut services);
    assert!(errors.is_empty());
    let errors = scheduler.run_cycle(&mut services);
    assert!(errors.is_empty());

    let recorder = services.get_service::<Recorder>().unwrap();
    assert_eq!(recorder.order, vec![10, 20]);
}

/// An explicit run level override wins over the name-implied one.
#[test]
fn explicit_run_level_overrides_name() {
    let mut scheduler = Scheduler::new();

    let x: RecorderSystem = system_x;
    let system = System::from(("tests::render", x));
    assert_eq!(system.run_level, RunLevel::Render);
    scheduler.add_system(system.with(RunLevel::Bind));

    assert_eq!(scheduler.len(RunLevel::Bind), 1);
    assert_eq!(scheduler.len(RunLevel::Render), 0);
    assert_eq!(scheduler.names(RunLevel::Bind), vec!["tests::render"]);
}

/// Startup systems run in the startup pass and not in the per-cycle passes.
#[test]
fn startup_runs_once_before_cycles() {
    let mut services = fresh_services();
    let mut scheduler = Scheduler::new();

    let x: RecorderSystem = system_x;
    let y: RecorderSystem = system_y;
    scheduler.add_system(System::from(("tests::startup", x)));
    scheduler.add_system(System::from(("tests::system_y", y)));

    let errors = scheduler.run_startup(&mut services);
    assert!(errors.is_empty());
    assert_eq!(
        services.get_service::<Recorder>().unwrap().order,
        vec![10]
    );

    let errors = scheduler.run_cycle(&mut services);
    assert!(errors.is_empty());
    let errors = scheduler.run_cycle(&mut services);
    assert!(errors.is_empty());
    assert_eq!(
        services.get_service::<Recorder>().unwrap().order,
        vec![10, 20, 20]
    );
}

/// Two systems with a mutable accessor to the same service run one after
/// the other within the phase: the first sees zero and writes one, the
/// second sees one and writes two.
#[test]
fn sequential_counter_increments() {
    let mut services = fresh_services();
    let mut scheduler = Scheduler::new();

    let first: RecorderSystem = increment_first;
    let second: RecorderSystem = increment_second;
    scheduler.add_system(System::from(("tests::first", first)));
    scheduler.add_system(System::from(("tests::second", second)));

    let errors = scheduler.run_startup(&mut services);
    assert!(errors.is_empty());
    let errors = scheduler.run_cycle(&mut services);
    assert!(errors.is_empty());

    assert_eq!(services.get_service::<Recorder>().unwrap().counter, 2);
}

/// A custom numeric priority orders between the named presets.
#[test]
fn custom_priority_orders_numerically() {
    let mut scheduler = Scheduler::new();
    let x: RecorderSystem = system_x;
    let y: RecorderSystem = system_y;
    let z: RecorderSystem = increment_first;
    scheduler.add_system(System::from(("tests::low", x)).with(Priority::Low));
    scheduler.add_system(System::from(("tests::high", y)).with(Priority::High));
    scheduler.add_system(System::from(("tests::custom", z)).with(Priority::Custom(3000)));

    assert_eq!(
        scheduler.names(RunLevel::Standard),
        vec!["tests::high", "tests::custom", "tests::low"]
    );
}

/// A system whose service is missing is skipped with a typed error; the
/// rest of the phase still runs.
#[test]
fn missing_service_skips_system() {
    let mut services: Services<Store> = Services::new();
    let mut scheduler = Scheduler::new();

    let x: RecorderSystem = system_x;
    scheduler.add_system(System::from(("tests::system_x", x)));

    let errors = scheduler.run_startup(&mut services);
    assert!(errors.is_empty());
    let errors = scheduler.run_cycle(&mut services);
    assert_eq!(errors.len(), 1);
    assert_eq!(
        errors[0],
        dotrix::ecs::FetchError::MissingService { key: 7 }
    );

    // The failure is deterministic: the same error comes back every cycle.
    let errors = scheduler.run_cycle(&mut services);
    assert_eq!(
        errors[0],
        dotrix::ecs::FetchError::MissingService { key: 7 }
    );
}
