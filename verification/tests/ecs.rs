//! Tests for the system adapter, accessors and run-level inference.

use dotrix::ecs::{Const, Context, Mut, RunLevel, System, SystemContext, Systemized};
use dotrix::services::{IntoService, Services};

/// Store value of this test application: one variant per service type.
enum Store {
    World(World),
    MyService(MyService),
}

struct MyComponent(u64);

/// A minimal world collaborator: counts spawned entity bundles.
struct World {
    counter: u64,
}

impl World {
    fn new() -> Self {
        World { counter: 0 }
    }

    fn spawn<T: IntoIterator>(&mut self, bundles: T) {
        for _ in bundles {
            self.counter += 1;
        }
    }

    fn counter(&self) -> u64 {
        self.counter
    }
}

impl IntoService for World {
    type Store = Store;

    // The trait's ghost items compile to stubs that are never executed.
    fn spec_key() -> u64 {
        unreachable!()
    }

    fn spec_pack(self) -> Store {
        unreachable!()
    }

    fn spec_unpack(_: Store) -> Option<Self> {
        unreachable!()
    }

    fn pack_unpack(_: Self) {
        unreachable!()
    }

    fn unpack_pack(_: Store, _: Self) {
        unreachable!()
    }

    fn key() -> u64 {
        1
    }

    fn pack(self) -> Store {
        Store::World(self)
    }

    fn unpack(v: Store) -> Result<Self, Store> {
        match v {
            Store::World(w) => Ok(w),
            other => Err(other),
        }
    }

    fn unpack_ref(v: &Store) -> Option<&Self> {
        match v {
            Store::World(w) => Some(w),
            _ => None,
        }
    }
}

struct MyService {
    data: u64,
}

impl IntoService for MyService {
    type Store = Store;

    // The trait's ghost items compile to stubs that are never executed.
    fn spec_key() -> u64 {
        unreachable!()
    }

    fn spec_pack(self) -> Store {
        unreachable!()
    }

    fn spec_unpack(_: Store) -> Option<Self> {
        unreachable!()
    }

    fn pack_unpack(_: Self) {
        unreachable!()
    }

    fn unpack_pack(_: Store, _: Self) {
        unreachable!()
    }

    fn key() -> u64 {
        2
    }

    fn pack(self) -> Store {
        Store::MyService(self)
    }

    fn unpack(v: Store) -> Result<Self, Store> {
        match v {
            Store::MyService(s) => Ok(s),
            other => Err(other),
        }
    }

    fn unpack_ref(v: &Store) -> Option<&Self> {
        match v {
            Store::MyService(s) => Some(s),
            _ => None,
        }
    }
}

#[derive(Default)]
struct MyContext(u64);

impl SystemContext for MyContext {
    // The trait's ghost item compiles to a stub that is never executed.
    fn spec_initial() -> Self {
        unreachable!()
    }

    fn initial() -> Self {
        MyContext::default()
    }
}

fn my_system(mut world: Mut<World>) -> Mut<World> {
    world.value.spawn(Some((MyComponent(123),)));
    world
}

#[test]
fn world_system() {
    let mut services: Services<Store> = Services::new();
    services.add_service(World::new());
    let mut s = System::from(my_system);
    s.data.run(&mut services).unwrap();
    assert_eq!(services.get_service::<World>().unwrap().counter(), 1);
}

fn my_system_with_context(
    ctx: Context<MyContext>,
    mut service: Mut<MyService>,
) -> (Context<MyContext>, Mut<MyService>) {
    service.value.data = ctx.value.0;
    (ctx, service)
}

#[test]
fn custom_system() {
    let mut services: Services<Store> = Services::new();
    services.add_service(MyService { data: 123 });
    let mut s = System::from(my_system_with_context);
    s.data.run(&mut services).unwrap();
    assert_eq!(services.get_service::<MyService>().unwrap().data, 0);
}

fn startup(service: Const<MyService>) -> Const<MyService> {
    service
}

fn bind(service: Const<MyService>) -> Const<MyService> {
    service
}

fn render(service: Const<MyService>) -> Const<MyService> {
    service
}

fn release(service: Const<MyService>) -> Const<MyService> {
    service
}

fn resize(service: Const<MyService>) -> Const<MyService> {
    service
}

#[test]
fn system_runlevel_autodetect() {
    let system = System::from(("tests::startup", startup));
    assert_eq!(system.run_level, RunLevel::Startup);

    let system = System::from(("tests::bind", bind));
    assert_eq!(system.run_level, RunLevel::Bind);

    let system = System::from(("tests::render", render));
    assert_eq!(system.run_level, RunLevel::Render);

    let system = System::from(("tests::release", release));
    assert_eq!(system.run_level, RunLevel::Release);

    let system = System::from(("tests::resize", resize));
    assert_eq!(system.run_level, RunLevel::Resize);

    let system = System::from(my_system_with_context);
    assert_eq!(system.run_level, RunLevel::Standard);
}
