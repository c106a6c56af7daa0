//! Entity Component System
//!
//! Holds the building blocks a scheduled application is made of: entity
//! handles, system priorities, run levels with name-suffix inference, the
//! service accessors handed to a running system, and the adapter that turns a
//! plain function into a uniformly dispatchable system.

use vstd::prelude::*;
use vstd::string::*;

use crate::services::{IntoService, Services};

verus! {

/// Entity structure has only an id field and represents an aggregation of
/// components.  The handle is opaque: nothing but equality and hashing is
/// defined on it.
#[derive(Eq, PartialEq, Debug, Hash, Clone, Copy, Structural)]
pub struct Entity(pub u64);

impl Entity {
    /// Wraps a numeric id produced by a world collaborator.
    pub fn from(id: u64) -> (r: Self)
        ensures
            r == Entity(id),
    {
        Entity(id)
    }

    /// The numeric id of the entity.
    pub fn id(self) -> (r: u64)
        ensures
            r == self.0,
    {
        self.0
    }
}

/// Any data structure can be a component.
pub trait Component: Send + Sync + 'static {

}

impl<T: Send + Sync + 'static> Component for T {

}

/// System priority: the ordering value of a system within its run level.
#[derive(Debug, Clone, Copy, Eq, PartialEq, Structural)]
pub enum Priority {
    /// Low priority (1024)
    Low,
    /// Normal priority (2048)
    Normal,
    /// High priority (4096)
    High,
    /// User defined value
    Custom(u32),
}

impl Priority {
    /// Numeric ordering value of the priority.
    pub open spec fn spec_value(self) -> u32 {
        match self {
            Priority::Low => 1024,
            Priority::Normal => 2048,
            Priority::High => 4096,
            Priority::Custom(value) => value,
        }
    }

    /// Returns the numeric ordering value of the priority.
    pub fn value(self) -> (r: u32)
        ensures
            r == self.spec_value(),
    {
        match self {
            Priority::Low => 1024,
            Priority::Normal => 2048,
            Priority::High => 4096,
            Priority::Custom(value) => value,
        }
    }
}

/// Defines when and how often a system should run.
#[derive(Debug, Clone, Copy, Eq, PartialEq, Structural)]
pub enum RunLevel {
    /// Only once on application startup
    Startup,
    /// Begin of rendering request handling
    Bind,
    /// Before rendering stage
    Standard,
    /// Rendering stage
    Render,
    /// End of the rendering request handling
    Release,
    /// Execution after window resizing
    Resize,
}

/// `sfx` is a suffix of `s`.
pub open spec fn suffix_of(sfx: Seq<u8>, s: Seq<u8>) -> bool {
    sfx.len() <= s.len() && s.subrange(s.len() - sfx.len(), s.len() as int) == sfx
}

/// The run level implied by a system name: the phase whose reserved suffix
/// the name ends with, `Standard` when no suffix matches.
pub open spec fn run_level_of_name(name: Seq<u8>) -> RunLevel {
    if suffix_of("::startup".spec_bytes(), name) {
        RunLevel::Startup
    } else if suffix_of("::bind".spec_bytes(), name) {
        RunLevel::Bind
    } else if suffix_of("::render".spec_bytes(), name) {
        RunLevel::Render
    } else if suffix_of("::release".spec_bytes(), name) {
        RunLevel::Release
    } else if suffix_of("::resize".spec_bytes(), name) {
        RunLevel::Resize
    } else {
        RunLevel::Standard
    }
}

/// The encoding of a non-empty string is non-empty.
proof fn lemma_encode_nonempty(s: Seq<char>)
    requires
        s.len() > 0,
    ensures
        vstd::utf8::encode_utf8(s).len() >= 1,
{
    assert(vstd::utf8::encode_utf8(s) == vstd::utf8::encode_scalar(s[0] as u32)
        + vstd::utf8::encode_utf8(s.drop_first()));
}

/// A system adapted without a registered name carries the empty name, and
/// the empty name matches no reserved suffix: such a system lands in the
/// default run level.
pub proof fn lemma_bare_name_defaults_standard()
    ensures
        run_level_of_name(("").spec_bytes()) == RunLevel::Standard,
{
    reveal_strlit("");
    assert(("").spec_bytes() =~= Seq::<u8>::empty());
    reveal_strlit("::startup");
    reveal_strlit("::bind");
    reveal_strlit("::render");
    reveal_strlit("::release");
    reveal_strlit("::resize");
    lemma_encode_nonempty(("::startup")@);
    lemma_encode_nonempty(("::bind")@);
    lemma_encode_nonempty(("::render")@);
    lemma_encode_nonempty(("::release")@);
    lemma_encode_nonempty(("::resize")@);
}

/// Byte-level suffix test.
fn bytes_ends_with(s: &[u8], suffix: &[u8]) -> (r: bool)
    ensures
        r == suffix_of(suffix@, s@),
{
    let n = s.len();
    let m = suffix.len();
    if m > n {
        return false;
    }
    let off = n - m;
    let mut i: usize = 0;
    while i < m
        invariant
            m <= n,
            off == n - m,
            n == s@.len(),
            m == suffix@.len(),
            0 <= i <= m,
            forall|j: int| 0 <= j < i ==> s@[off + j] == suffix@[j],
        decreases m - i,
    {
        if s[off + i] != suffix[i] {
            proof {
                assert(s@.subrange(n - m, n as int)[i as int] == s@[off + i]);
            }
            return false;
        }
        i = i + 1;
    }
    proof {
        assert(s@.subrange(n - m, n as int) =~= suffix@);
    }
    true
}

/// Whether `s` ends with `suffix`, stated over the strings' bytes.
fn str_ends_with(s: &str, suffix: &str) -> (r: bool)
    ensures
        r == suffix_of(suffix.spec_bytes(), s.spec_bytes()),
{
    bytes_ends_with(s.as_bytes(), suffix.as_bytes())
}

impl RunLevel {
    /// Infers the run level from a system name by its reserved suffix;
    /// `Standard` when no suffix matches.
    pub fn of_name(name: &str) -> (r: RunLevel)
        ensures
            r == run_level_of_name(name.spec_bytes()),
    {
        if str_ends_with(name, "::startup") {
            RunLevel::Startup
        } else if str_ends_with(name, "::bind") {
            RunLevel::Bind
        } else if str_ends_with(name, "::render") {
            RunLevel::Render
        } else if str_ends_with(name, "::release") {
            RunLevel::Release
        } else if str_ends_with(name, "::resize") {
            RunLevel::Resize
        } else {
            RunLevel::Standard
        }
    }
}

/// Failure of an accessor resolution at invocation time.  A missing
/// mandatory dependency is a programming error; rather than aborting the
/// process, the failure is surfaced as a typed error naming the service
/// key, so a caller can decide to stop or to skip the offending system.
#[derive(Debug, Clone, Copy, Eq, PartialEq, Structural)]
pub enum FetchError {
    /// No service is registered under the requested type-identity key.
    MissingService {
        /// The key that was looked up.
        key: u64,
    },
    /// A value is registered under the key but it is not of the requested
    /// service type (the checked downcast failed).
    TypeMismatch {
        /// The key that was looked up.
        key: u64,
    },
}

/// Abstraction for a [`System`] context: per-system private state that
/// persists between invocations of that system only.  Implementors provide
/// the initial (default) value the context starts from.
pub trait SystemContext: Sized {
    /// The initial context value of a freshly adapted system.
    spec fn spec_initial() -> Self;

    /// Constructs the initial context value.
    fn initial() -> (r: Self)
        ensures
            r == Self::spec_initial(),
    ;
}

/// Accessor for a [`System`] context, to privately store data between runs.
pub struct Context<T> {
    /// The persistent context value.
    pub value: T,
}

impl<T: SystemContext> Context<T> {
    /// Constructs a context holding the initial value of `T`.
    pub fn initial() -> (r: Self)
        ensures
            r.value == T::spec_initial(),
    {
        Context { value: T::initial() }
    }
}

/// Abstraction to access a service in the storage: an invocation-scoped
/// capability over exactly one service, resolved by type-identity key at the
/// moment a system runs.
///
/// Resolution removes the service from the store for the duration of the
/// invocation and restores it afterwards, so a second accessor to the same
/// service within one invocation fails with a typed error instead of
/// aliasing it: a conflict that would otherwise be left as a convention
/// for system authors to uphold is checked at run time.
pub trait Accessor: Sized {
    /// The store value type of the registry this accessor resolves against.
    type Store;

    /// Type-identity key of the accessed service.
    spec fn spec_key() -> u64;

    /// The store value this accessor stands for.
    spec fn spec_val(self) -> Self::Store;

    /// Whether a stored value is of the accessed service type.
    spec fn spec_fetchable(v: Self::Store) -> bool;

    /// Resolves the accessor against the registry, removing the service for
    /// the duration of the invocation.  Fails exactly when the service is
    /// absent or of the wrong type, leaving the registry unchanged.
    fn fetch(services: &mut Services<Self::Store>) -> (r: Result<Self, FetchError>)
        requires
            old(services).wf(),
        ensures
            final(services).wf(),
            match r {
                Ok(a) => old(services)@.contains_key(Self::spec_key()) && Self::spec_fetchable(
                    old(services)@[Self::spec_key()],
                ) && a.spec_val() == old(services)@[Self::spec_key()] && final(services)@ == old(
                    services,
                )@.remove(Self::spec_key()),
                Err(e) => final(services)@ == old(services)@ && ((!old(
                    services,
                )@.contains_key(Self::spec_key()) && e == (FetchError::MissingService {
                    key: Self::spec_key(),
                })) || (old(services)@.contains_key(Self::spec_key()) && !Self::spec_fetchable(
                    old(services)@[Self::spec_key()],
                ) && e == (FetchError::TypeMismatch { key: Self::spec_key() }))),
            },
    ;

    /// Puts the accessed service back into the registry at the end of the
    /// invocation.
    fn restore(self, services: &mut Services<Self::Store>)
        requires
            old(services).wf(),
        ensures
            final(services).wf(),
            final(services)@ == old(services)@.insert(Self::spec_key(), self.spec_val()),
    ;
}

/// Mutable accessor for an [`IntoService`] instance: grants exclusive
/// read-write access to one service for the duration of one invocation.
pub struct Mut<T> {
    /// The accessed service.
    pub value: T,
}

/// Immutable accessor for a service instance: grants shared read-only access
/// to one service for the duration of one invocation.
pub struct Const<T> {
    value: T,
}

impl<T> Const<T> {
    /// Read access to the service.
    pub fn get(&self) -> (r: &T)
        ensures
            *r == self.spec_get(),
    {
        &self.value
    }

    /// The service value this accessor grants read access to.
    pub closed spec fn spec_get(self) -> T {
        self.value
    }
}

impl<T: IntoService> Accessor for Mut<T> {
    type Store = T::Store;

    open spec fn spec_key() -> u64 {
        T::spec_key()
    }

    open spec fn spec_val(self) -> T::Store {
        self.value.spec_pack()
    }

    open spec fn spec_fetchable(v: T::Store) -> bool {
        T::spec_unpack(v) is Some
    }

    fn fetch(services: &mut Services<T::Store>) -> (r: Result<Self, FetchError>) {
        let key = T::key();
        match services.take(key) {
            None => Err(FetchError::MissingService { key }),
            Some(v) => {
                match T::unpack(v) {
                    Ok(value) => {
                        proof {
                            T::unpack_pack(old(services)@[key], value);
                        }
                        Ok(Mut { value })
                    },
                    Err(v) => {
                        services.add(key, v);
                        proof {
                            assert(old(services)@.remove(key).insert(key, old(services)@[key])
                                =~= old(services)@);
                        }
                        Err(FetchError::TypeMismatch { key })
                    },
                }
            },
        }
    }

    fn restore(self, services: &mut Services<T::Store>) {
        services.add(T::key(), self.value.pack());
    }
}

impl<T: IntoService> Accessor for Const<T> {
    type Store = T::Store;

    open spec fn spec_key() -> u64 {
        T::spec_key()
    }

    open spec fn spec_val(self) -> T::Store {
        self.spec_get().spec_pack()
    }

    open spec fn spec_fetchable(v: T::Store) -> bool {
        T::spec_unpack(v) is Some
    }

    fn fetch(services: &mut Services<T::Store>) -> (r: Result<Self, FetchError>) {
        let key = T::key();
        match services.take(key) {
            None => Err(FetchError::MissingService { key }),
            Some(v) => {
                match T::unpack(v) {
                    Ok(value) => {
                        proof {
                            T::unpack_pack(old(services)@[key], value);
                        }
                        Ok(Const { value })
                    },
                    Err(v) => {
                        services.add(key, v);
                        proof {
                            assert(old(services)@.remove(key).insert(key, old(services)@[key])
                                =~= old(services)@);
                        }
                        Err(FetchError::TypeMismatch { key })
                    },
                }
            },
        }
    }

    fn restore(self, services: &mut Services<T::Store>) {
        services.add(T::key(), self.value.pack());
    }
}

/// Abstraction for a [`System`] prepared to be integrated into the engine:
/// a named, priority-tagged callable over one service registry.
pub trait Systemized: Sized {
    /// The store value type of the registry the system runs against.
    type Store;

    /// Whether the wrapped function accepts every accessor bundle it may be
    /// handed; established at adaptation time and preserved ever after.
    spec fn wf(&self) -> bool;

    /// The system name, as bytes of the adapted function's diagnostic name.
    spec fn spec_name(&self) -> Seq<u8>;

    /// The system priority.
    spec fn spec_priority(&self) -> Priority;

    /// How many passes have dispatched the system so far.
    spec fn spec_runs(&self) -> int;

    /// The system with its priority replaced and everything else kept: the
    /// exact effect of [`Systemized::set_priority`].
    spec fn spec_with_priority(self, priority: Priority) -> Self;

    /// What one dispatch does: how the system and the registry after a
    /// [`Systemized::run`] relate to the system and the registry before it
    /// and to the returned result.  Each adapter defines this as the exact
    /// postcondition of its `invoke`: on success the registry holds, under
    /// each accessor's key, the service the adapted function handed back
    /// and the persistent context is the one the function returned; on
    /// failure the registry and the context are unchanged and the error is
    /// the first failing accessor's.
    spec fn run_rel(
        pre: Self,
        post: Self,
        pre_services: Map<u64, Self::Store>,
        post_services: Map<u64, Self::Store>,
        r: Result<(), FetchError>,
    ) -> bool;

    /// Returns the name of the system.
    fn name(&self) -> (r: &'static str)
        ensures
            r.spec_bytes() == self.spec_name(),
    ;

    /// Returns the priority of the system.
    fn priority(&self) -> (p: Priority)
        ensures
            p == self.spec_priority(),
    ;

    /// Sets the priority for the system and changes nothing else.
    fn set_priority(&mut self, priority: Priority)
        requires
            old(self).wf(),
        ensures
            final(self).wf(),
            *final(self) == old(self).spec_with_priority(priority),
            final(self).spec_priority() == priority,
            final(self).spec_name() == old(self).spec_name(),
            final(self).spec_runs() == old(self).spec_runs(),
    ;

    /// Executes one system cycle against the registry, related to the
    /// state before it by [`Systemized::run_rel`]: it fails exactly when
    /// an accessor of the system cannot be resolved, leaving the registry
    /// as the already resolved accessors put it back.  Either way the
    /// dispatch counts: one pass invokes each system once.
    fn run(&mut self, services: &mut Services<Self::Store>) -> (r: Result<(), FetchError>)
        requires
            old(self).wf(),
            old(services).wf(),
        ensures
            final(self).wf(),
            final(services).wf(),
            final(self).spec_name() == old(self).spec_name(),
            final(self).spec_priority() == old(self).spec_priority(),
            final(self).spec_runs() == old(self).spec_runs() + 1,
            Self::run_rel(*old(self), *final(self), old(services)@, final(services)@, r),
    ;
}

/// The accessor `X` resolves against the store contents `m`: its service is
/// registered and of the accessed type.
pub open spec fn fetch_ready<X: Accessor>(m: Map<u64, X::Store>) -> bool {
    m.contains_key(X::spec_key()) && X::spec_fetchable(m[X::spec_key()])
}

/// `e` is exactly the error resolving the accessor `X` against the store
/// contents `m` produces: the service is missing, or of another type.
pub open spec fn fetch_rejected<X: Accessor>(m: Map<u64, X::Store>, e: FetchError) -> bool {
    (!m.contains_key(X::spec_key()) && e == (FetchError::MissingService { key: X::spec_key() }))
        || (m.contains_key(X::spec_key()) && !X::spec_fetchable(m[X::spec_key()]) && e == (
    FetchError::TypeMismatch { key: X::spec_key() }))
}

/// An adapted system over one accessor parameter and no context.
pub struct SystemData1<F, A> {
    name: &'static str,
    func: F,
    priority: Priority,
    runs: Ghost<int>,
    accessors: core::marker::PhantomData<A>,
}

impl<F, A> SystemData1<F, A> where A: Accessor, F: Fn(A) -> A {
    /// The adapted function.
    pub closed spec fn spec_func(&self) -> F {
        self.func
    }

    /// Wraps `func` under the given diagnostic name, at normal priority.
    pub fn new(name: &'static str, func: F) -> (r: Self)
        requires
            forall|a: A| call_requires(func, (a,)),
        ensures
            r.wf(),
            r.spec_name() == name.spec_bytes(),
            r.spec_priority() == Priority::Normal,
            r.spec_func() == func,
            r.spec_runs() == 0,
    {
        SystemData1 {
            name,
            func,
            priority: Priority::Normal,
            runs: Ghost(0),
            accessors: core::marker::PhantomData,
        }
    }

    /// Changing the priority changes nothing else: the adapted function,
    /// the name and the dispatch count survive.
    pub proof fn lemma_with_priority(self, priority: Priority)
        ensures
            self.spec_with_priority(priority).spec_priority() == priority,
            self.spec_with_priority(priority).spec_name() == self.spec_name(),
            self.spec_with_priority(priority).spec_runs() == self.spec_runs(),
            self.spec_with_priority(priority).spec_func() == self.spec_func(),
    {
    }

    /// Executes one cycle and counts the dispatch: resolves the accessor,
    /// applies the function, and restores the accessed service.  The
    /// registry afterwards holds, under the accessor's key, exactly the
    /// service the function handed back.
    pub fn invoke(&mut self, services: &mut Services<A::Store>) -> (r: Result<(), FetchError>)
        requires
            old(self).wf(),
            old(services).wf(),
        ensures
            final(self).spec_func() == old(self).spec_func(),
            final(self).spec_name() == old(self).spec_name(),
            final(self).spec_priority() == old(self).spec_priority(),
            final(self).spec_runs() == old(self).spec_runs() + 1,
            final(self).wf() == old(self).wf(),
            final(services).wf(),
            Self::run_rel(*old(self), *final(self), old(services)@, final(services)@, r),
    {
        proof {
            self.runs@ = self.runs@ + 1;
        }
        match A::fetch(services) {
            Err(e) => Err(e),
            Ok(a) => {
                let ghost a0 = a;
                let a2 = (self.func)(a);
                let ghost a3 = a2;
                a2.restore(services);
                proof {
                    assert(services@ =~= old(services)@.insert(A::spec_key(), a3.spec_val()));
                    assert(a0.spec_val() == old(services)@[A::spec_key()]);
                    assert(call_ensures(old(self).spec_func(), (a0,), a3));
                }
                Ok(())
            },
        }
    }
}

impl<F, A> Systemized for SystemData1<F, A> where A: Accessor, F: Fn(A) -> A {
    type Store = A::Store;

    open spec fn run_rel(
        pre: Self,
        post: Self,
        pre_services: Map<u64, A::Store>,
        post_services: Map<u64, A::Store>,
        r: Result<(), FetchError>,
    ) -> bool {
        match r {
            Ok(()) => fetch_ready::<A>(pre_services) && exists|a: A, a2: A|
                a.spec_val() == pre_services[A::spec_key()] && #[trigger] call_ensures(pre.spec_func(), (a,), a2) && post_services == pre_services.insert(A::spec_key(), a2.spec_val()),
            Err(e) => post_services == pre_services && fetch_rejected::<A>(pre_services, e),
        }
    }

    closed spec fn spec_with_priority(self, priority: Priority) -> Self {
        SystemData1 { priority, ..self }
    }

    closed spec fn wf(&self) -> bool {
        forall|a: A| call_requires(self.func, (a,))
    }

    closed spec fn spec_name(&self) -> Seq<u8> {
        self.name.spec_bytes()
    }

    closed spec fn spec_priority(&self) -> Priority {
        self.priority
    }

    closed spec fn spec_runs(&self) -> int {
        self.runs@
    }

    fn name(&self) -> (r: &'static str) {
        self.name
    }

    fn priority(&self) -> (p: Priority) {
        self.priority
    }

    fn set_priority(&mut self, priority: Priority) {
        self.priority = priority;
    }

    fn run(&mut self, services: &mut Services<A::Store>) -> (r: Result<(), FetchError>) {
        self.invoke(services)
    }
}

/// An adapted system over a persistent context and one accessor parameter.
pub struct SystemData1C<F, C, A> {
    name: &'static str,
    func: F,
    priority: Priority,
    runs: Ghost<int>,
    ctx: Context<C>,
    accessors: core::marker::PhantomData<A>,
}

impl<F, C, A> SystemData1C<F, C, A> where
    C: SystemContext,
    A: Accessor,
    F: Fn(Context<C>, A) -> (Context<C>, A),
 {
    /// The adapted function.
    pub closed spec fn spec_func(&self) -> F {
        self.func
    }

    /// The system's persistent context.
    pub closed spec fn spec_ctx(&self) -> Context<C> {
        self.ctx
    }

    /// Wraps `func` under the given diagnostic name, at normal priority,
    /// with the context at its initial value.
    pub fn new(name: &'static str, func: F) -> (r: Self)
        requires
            forall|c: Context<C>, a: A| call_requires(func, (c, a)),
        ensures
            r.wf(),
            r.spec_name() == name.spec_bytes(),
            r.spec_priority() == Priority::Normal,
            r.spec_func() == func,
            r.spec_ctx().value == C::spec_initial(),
            r.spec_runs() == 0,
    {
        SystemData1C {
            name,
            func,
            priority: Priority::Normal,
            runs: Ghost(0),
            ctx: Context::initial(),
            accessors: core::marker::PhantomData,
        }
    }

    /// Changing the priority changes nothing else: the adapted function, the persistent context,
    /// the name and the dispatch count survive.
    pub proof fn lemma_with_priority(self, priority: Priority)
        ensures
            self.spec_with_priority(priority).spec_priority() == priority,
            self.spec_with_priority(priority).spec_name() == self.spec_name(),
            self.spec_with_priority(priority).spec_runs() == self.spec_runs(),
            self.spec_with_priority(priority).spec_func() == self.spec_func(),
            self.spec_with_priority(priority).spec_ctx() == self.spec_ctx(),
    {
    }

    /// Executes one cycle and counts the dispatch: binds the persistent
    /// context, resolves the accessor, applies the function, restores the
    /// accessed service and keeps the context the function handed back for
    /// the next invocation.
    pub fn invoke(&mut self, services: &mut Services<A::Store>) -> (r: Result<(), FetchError>)
        requires
            old(self).wf(),
            old(services).wf(),
        ensures
            final(self).wf(),
            final(services).wf(),
            final(self).spec_func() == old(self).spec_func(),
            final(self).spec_name() == old(self).spec_name(),
            final(self).spec_priority() == old(self).spec_priority(),
            final(self).spec_runs() == old(self).spec_runs() + 1,
            final(self).wf() == old(self).wf(),
            Self::run_rel(*old(self), *final(self), old(services)@, final(services)@, r),
    {
        proof {
            self.runs@ = self.runs@ + 1;
        }
        match A::fetch(services) {
            Err(e) => Err(e),
            Ok(a) => {
                let ghost a0 = a;
                let mut ctx = Context { value: C::initial() };
                core::mem::swap(&mut ctx, &mut self.ctx);
                let (ctx2, a2) = (self.func)(ctx, a);
                let ghost a3 = a2;
                self.ctx = ctx2;
                a2.restore(services);
                proof {
                    assert(services@ =~= old(services)@.insert(A::spec_key(), a3.spec_val()));
                    assert(a0.spec_val() == old(services)@[A::spec_key()]);
                    assert(call_ensures(
                        old(self).spec_func(),
                        (old(self).spec_ctx(), a0),
                        (self.spec_ctx(), a3),
                    ));
                }
                Ok(())
            },
        }
    }
}

impl<F, C, A> Systemized for SystemData1C<F, C, A> where
    C: SystemContext,
    A: Accessor,
    F: Fn(Context<C>, A) -> (Context<C>, A),
 {
    type Store = A::Store;

    open spec fn run_rel(
        pre: Self,
        post: Self,
        pre_services: Map<u64, A::Store>,
        post_services: Map<u64, A::Store>,
        r: Result<(), FetchError>,
    ) -> bool {
        match r {
            Ok(()) => fetch_ready::<A>(pre_services) && exists|a: A, a2: A|
                a.spec_val() == pre_services[A::spec_key()] && #[trigger] call_ensures(pre.spec_func(), (pre.spec_ctx(), a), (post.spec_ctx(), a2)) && post_services == pre_services.insert(A::spec_key(), a2.spec_val()),
            Err(e) => post_services == pre_services && post.spec_ctx() == pre.spec_ctx() && fetch_rejected::<A>(pre_services, e),
        }
    }

    closed spec fn spec_with_priority(self, priority: Priority) -> Self {
        SystemData1C { priority, ..self }
    }

    closed spec fn wf(&self) -> bool {
        forall|c: Context<C>, a: A| call_requires(self.func, (c, a))
    }

    closed spec fn spec_name(&self) -> Seq<u8> {
        self.name.spec_bytes()
    }

    closed spec fn spec_priority(&self) -> Priority {
        self.priority
    }

    closed spec fn spec_runs(&self) -> int {
        self.runs@
    }

    fn name(&self) -> (r: &'static str) {
        self.name
    }

    fn priority(&self) -> (p: Priority) {
        self.priority
    }

    fn set_priority(&mut self, priority: Priority) {
        self.priority = priority;
    }

    fn run(&mut self, services: &mut Services<A::Store>) -> (r: Result<(), FetchError>) {
        self.invoke(services)
    }
}

/// An adapted system over two accessor parameters and no context.
pub struct SystemData2<F, A, B> {
    name: &'static str,
    func: F,
    priority: Priority,
    runs: Ghost<int>,
    accessors: core::marker::PhantomData<(A, B)>,
}

impl<F, A, B> SystemData2<F, A, B> where
    A: Accessor,
    B: Accessor<Store = A::Store>,
    F: Fn(A, B) -> (A, B),
 {
    /// The adapted function.
    pub closed spec fn spec_func(&self) -> F {
        self.func
    }

    /// Wraps `func` under the given diagnostic name, at normal priority.
    pub fn new(name: &'static str, func: F) -> (r: Self)
        requires
            forall|a: A, b: B| call_requires(func, (a, b)),
        ensures
            r.wf(),
            r.spec_name() == name.spec_bytes(),
            r.spec_priority() == Priority::Normal,
            r.spec_func() == func,
            r.spec_runs() == 0,
    {
        SystemData2 {
            name,
            func,
            priority: Priority::Normal,
            runs: Ghost(0),
            accessors: core::marker::PhantomData,
        }
    }

    /// Changing the priority changes nothing else: the adapted function,
    /// the name and the dispatch count survive.
    pub proof fn lemma_with_priority(self, priority: Priority)
        ensures
            self.spec_with_priority(priority).spec_priority() == priority,
            self.spec_with_priority(priority).spec_name() == self.spec_name(),
            self.spec_with_priority(priority).spec_runs() == self.spec_runs(),
            self.spec_with_priority(priority).spec_func() == self.spec_func(),
    {
    }

    /// Executes one cycle and counts the dispatch: resolves both accessors
    /// in declaration order, applies the function, and restores both
    /// accessed services.  Two accessors to the same service key conflict:
    /// the second resolution fails and the first service is put back
    /// untouched.
    pub fn invoke(&mut self, services: &mut Services<A::Store>) -> (r: Result<(), FetchError>)
        requires
            old(self).wf(),
            old(services).wf(),
        ensures
            final(self).spec_func() == old(self).spec_func(),
            final(self).spec_name() == old(self).spec_name(),
            final(self).spec_priority() == old(self).spec_priority(),
            final(self).spec_runs() == old(self).spec_runs() + 1,
            final(self).wf() == old(self).wf(),
            final(services).wf(),
            Self::run_rel(*old(self), *final(self), old(services)@, final(services)@, r),
    {
        proof {
            self.runs@ = self.runs@ + 1;
        }
        match A::fetch(services) {
            Err(e) => Err(e),
            Ok(a) => {
                match B::fetch(services) {
                    Err(e) => {
                        let ghost a0 = a;
                        a.restore(services);
                        proof {
                            assert(a0.spec_val() == old(services)@[A::spec_key()]);
                            assert(services@ =~= old(services)@);
                        }
                        Err(e)
                    },
                    Ok(b) => {
                        let ghost a0 = a;
                        let ghost b0 = b;
                        let (a2, b2) = (self.func)(a, b);
                        let ghost a3 = a2;
                        let ghost b3 = b2;
                        a2.restore(services);
                        b2.restore(services);
                        proof {
                            assert(call_ensures(old(self).spec_func(), (a0, b0), (a3, b3)));
                            assert(services@ == old(services)@.remove(A::spec_key()).remove(
                                B::spec_key(),
                            ).insert(A::spec_key(), a3.spec_val()).insert(
                                B::spec_key(),
                                b3.spec_val(),
                            ));
                        }
                        Ok(())
                    },
                }
            },
        }
    }
}

impl<F, A, B> Systemized for SystemData2<F, A, B> where
    A: Accessor,
    B: Accessor<Store = A::Store>,
    F: Fn(A, B) -> (A, B),
 {
    type Store = A::Store;

    open spec fn run_rel(
        pre: Self,
        post: Self,
        pre_services: Map<u64, A::Store>,
        post_services: Map<u64, A::Store>,
        r: Result<(), FetchError>,
    ) -> bool {
        match r {
            Ok(()) => fetch_ready::<A>(pre_services) && fetch_ready::<B>(pre_services.remove(A::spec_key())) && exists|a: A, b: B, a2: A, b2: B|
                a.spec_val() == pre_services[A::spec_key()] && b.spec_val() == pre_services.remove(A::spec_key())[B::spec_key()] && #[trigger] call_ensures(pre.spec_func(), (a, b), (a2, b2)) && post_services == pre_services.remove(A::spec_key()).remove(B::spec_key()).insert(A::spec_key(), a2.spec_val()).insert(B::spec_key(), b2.spec_val()),
            Err(e) => post_services == pre_services && ((fetch_rejected::<A>(pre_services, e)) || (fetch_ready::<A>(pre_services) && fetch_rejected::<B>(pre_services.remove(A::spec_key()), e))),
        }
    }

    closed spec fn spec_with_priority(self, priority: Priority) -> Self {
        SystemData2 { priority, ..self }
    }

    closed spec fn wf(&self) -> bool {
        forall|a: A, b: B| call_requires(self.func, (a, b))
    }

    closed spec fn spec_name(&self) -> Seq<u8> {
        self.name.spec_bytes()
    }

    closed spec fn spec_priority(&self) -> Priority {
        self.priority
    }

    closed spec fn spec_runs(&self) -> int {
        self.runs@
    }

    fn name(&self) -> (r: &'static str) {
        self.name
    }

    fn priority(&self) -> (p: Priority) {
        self.priority
    }

    fn set_priority(&mut self, priority: Priority) {
        self.priority = priority;
    }

    fn run(&mut self, services: &mut Services<A::Store>) -> (r: Result<(), FetchError>) {
        self.invoke(services)
    }
}

/// An adapted system over a persistent context and two accessor parameters.
pub struct SystemData2C<F, C, A, B> {
    name: &'static str,
    func: F,
    priority: Priority,
    runs: Ghost<int>,
    ctx: Context<C>,
    accessors: core::marker::PhantomData<(A, B)>,
}

impl<F, C, A, B> SystemData2C<F, C, A, B> where
    C: SystemContext,
    A: Accessor,
    B: Accessor<Store = A::Store>,
    F: Fn(Context<C>, A, B) -> (Context<C>, A, B),
 {
    /// The adapted function.
    pub closed spec fn spec_func(&self) -> F {
        self.func
    }

    /// The system's persistent context.
    pub closed spec fn spec_ctx(&self) -> Context<C> {
        self.ctx
    }

    /// Wraps `func` under the given diagnostic name, at normal priority,
    /// with the context at its initial value.
    pub fn new(name: &'static str, func: F) -> (r: Self)
        requires
            forall|c: Context<C>, a: A, b: B| call_requires(func, (c, a, b)),
        ensures
            r.wf(),
            r.spec_name() == name.spec_bytes(),
            r.spec_priority() == Priority::Normal,
            r.spec_func() == func,
            r.spec_ctx().value == C::spec_initial(),
            r.spec_runs() == 0,
    {
        SystemData2C {
            name,
            func,
            priority: Priority::Normal,
            runs: Ghost(0),
            ctx: Context::initial(),
            accessors: core::marker::PhantomData,
        }
    }

    /// Changing the priority changes nothing else: the adapted function, the persistent context,
    /// the name and the dispatch count survive.
    pub proof fn lemma_with_priority(self, priority: Priority)
        ensures
            self.spec_with_priority(priority).spec_priority() == priority,
            self.spec_with_priority(priority).spec_name() == self.spec_name(),
            self.spec_with_priority(priority).spec_runs() == self.spec_runs(),
            self.spec_with_priority(priority).spec_func() == self.spec_func(),
            self.spec_with_priority(priority).spec_ctx() == self.spec_ctx(),
    {
    }

    /// Executes one cycle and counts the dispatch: binds the persistent
    /// context, resolves both accessors in declaration order, applies the
    /// function, restores the accessed services and keeps the context the
    /// function handed back.
    pub fn invoke(&mut self, services: &mut Services<A::Store>) -> (r: Result<(), FetchError>)
        requires
            old(self).wf(),
            old(services).wf(),
        ensures
            final(self).wf(),
            final(services).wf(),
            final(self).spec_func() == old(self).spec_func(),
            final(self).spec_name() == old(self).spec_name(),
            final(self).spec_priority() == old(self).spec_priority(),
            final(self).spec_runs() == old(self).spec_runs() + 1,
            final(self).wf() == old(self).wf(),
            Self::run_rel(*old(self), *final(self), old(services)@, final(services)@, r),
    {
        proof {
            self.runs@ = self.runs@ + 1;
        }
        match A::fetch(services) {
            Err(e) => Err(e),
            Ok(a) => {
                match B::fetch(services) {
                    Err(e) => {
                        let ghost a0 = a;
                        a.restore(services);
                        proof {
                            assert(a0.spec_val() == old(services)@[A::spec_key()]);
                            assert(services@ =~= old(services)@);
                        }
                        Err(e)
                    },
                    Ok(b) => {
                        let ghost a0 = a;
                        let ghost b0 = b;
                        let mut ctx = Context { value: C::initial() };
                        core::mem::swap(&mut ctx, &mut self.ctx);
                        let (ctx2, a2, b2) = (self.func)(ctx, a, b);
                        let ghost a3 = a2;
                        let ghost b3 = b2;
                        self.ctx = ctx2;
                        a2.restore(services);
                        b2.restore(services);
                        proof {
                            assert(call_ensures(
                                old(self).spec_func(),
                                (old(self).spec_ctx(), a0, b0),
                                (self.spec_ctx(), a3, b3),
                            ));
                            assert(services@ == old(services)@.remove(A::spec_key()).remove(
                                B::spec_key(),
                            ).insert(A::spec_key(), a3.spec_val()).insert(
                                B::spec_key(),
                                b3.spec_val(),
                            ));
                        }
                        Ok(())
                    },
                }
            },
        }
    }
}

impl<F, C, A, B> Systemized for SystemData2C<F, C, A, B> where
    C: SystemContext,
    A: Accessor,
    B: Accessor<Store = A::Store>,
    F: Fn(Context<C>, A, B) -> (Context<C>, A, B),
 {
    type Store = A::Store;

    open spec fn run_rel(
        pre: Self,
        post: Self,
        pre_services: Map<u64, A::Store>,
        post_services: Map<u64, A::Store>,
        r: Result<(), FetchError>,
    ) -> bool {
        match r {
            Ok(()) => fetch_ready::<A>(pre_services) && fetch_ready::<B>(pre_services.remove(A::spec_key())) && exists|a: A, b: B, a2: A, b2: B|
                a.spec_val() == pre_services[A::spec_key()] && b.spec_val() == pre_services.remove(A::spec_key())[B::spec_key()] && #[trigger] call_ensures(pre.spec_func(), (pre.spec_ctx(), a, b), (post.spec_ctx(), a2, b2)) && post_services == pre_services.remove(A::spec_key()).remove(B::spec_key()).insert(A::spec_key(), a2.spec_val()).insert(B::spec_key(), b2.spec_val()),
            Err(e) => post_services == pre_services && post.spec_ctx() == pre.spec_ctx() && ((fetch_rejected::<A>(pre_services, e)) || (fetch_ready::<A>(pre_services) && fetch_rejected::<B>(pre_services.remove(A::spec_key()), e))),
        }
    }

    closed spec fn spec_with_priority(self, priority: Priority) -> Self {
        SystemData2C { priority, ..self }
    }

    closed spec fn wf(&self) -> bool {
        forall|c: Context<C>, a: A, b: B| call_requires(self.func, (c, a, b))
    }

    closed spec fn spec_name(&self) -> Seq<u8> {
        self.name.spec_bytes()
    }

    closed spec fn spec_priority(&self) -> Priority {
        self.priority
    }

    closed spec fn spec_runs(&self) -> int {
        self.runs@
    }

    fn name(&self) -> (r: &'static str) {
        self.name
    }

    fn priority(&self) -> (p: Priority) {
        self.priority
    }

    fn set_priority(&mut self, priority: Priority) {
        self.priority = priority;
    }

    fn run(&mut self, services: &mut Services<A::Store>) -> (r: Result<(), FetchError>) {
        self.invoke(services)
    }
}


/// An adapted system over three accessor parameters and no context.
pub struct SystemData3<F, A, B, D> {
    name: &'static str,
    func: F,
    priority: Priority,
    runs: Ghost<int>,
    accessors: core::marker::PhantomData<(A, B, D)>,
}

impl<F, A, B, D> SystemData3<F, A, B, D> where
    A: Accessor,
    B: Accessor<Store = A::Store>,
    D: Accessor<Store = A::Store>,
    F: Fn(A, B, D) -> (A, B, D),
 {
    /// The adapted function.
    pub closed spec fn spec_func(&self) -> F {
        self.func
    }

    /// Wraps `func` under the given diagnostic name, at normal priority.
    pub fn new(name: &'static str, func: F) -> (r: Self)
        requires
            forall|a: A, b: B, d: D| call_requires(func, (a, b, d)),
        ensures
            r.wf(),
            r.spec_name() == name.spec_bytes(),
            r.spec_priority() == Priority::Normal,
            r.spec_func() == func,
            r.spec_runs() == 0,
    {
        SystemData3 {
            name,
            func,
            priority: Priority::Normal,
            runs: Ghost(0),
            accessors: core::marker::PhantomData,
        }
    }

    /// Changing the priority changes nothing else: the adapted function,
    /// the name and the dispatch count survive.
    pub proof fn lemma_with_priority(self, priority: Priority)
        ensures
            self.spec_with_priority(priority).spec_priority() == priority,
            self.spec_with_priority(priority).spec_name() == self.spec_name(),
            self.spec_with_priority(priority).spec_runs() == self.spec_runs(),
            self.spec_with_priority(priority).spec_func() == self.spec_func(),
    {
    }

    /// Executes one cycle and counts the dispatch: resolves the accessors
    /// in declaration order, applies the function, and restores the
    /// accessed services.  A failing resolution rolls the already removed
    /// services back.
    pub fn invoke(&mut self, services: &mut Services<A::Store>) -> (r: Result<(), FetchError>)
        requires
            old(self).wf(),
            old(services).wf(),
        ensures
            final(self).spec_func() == old(self).spec_func(),
            final(self).spec_name() == old(self).spec_name(),
            final(self).spec_priority() == old(self).spec_priority(),
            final(self).spec_runs() == old(self).spec_runs() + 1,
            final(self).wf() == old(self).wf(),
            final(services).wf(),
            Self::run_rel(*old(self), *final(self), old(services)@, final(services)@, r),
    {
        proof {
            self.runs@ = self.runs@ + 1;
        }
        match A::fetch(services) {
            Err(e) => {
                Err(e)
            },
            Ok(a) => {
                match B::fetch(services) {
                    Err(e) => {
                        a.restore(services);
                        proof {
                            assert(services@ =~= old(services)@);
                        }
                        Err(e)
                    },
                    Ok(b) => {
                        match D::fetch(services) {
                            Err(e) => {
                                b.restore(services);
                                a.restore(services);
                                proof {
                                    assert(services@ =~= old(services)@);
                                }
                                Err(e)
                            },
                            Ok(d) => {
                                let ghost a0 = a;
                                let ghost b0 = b;
                                let ghost d0 = d;
                                let (a2, b2, d2) = (self.func)(a, b, d);
                                let ghost a3 = a2;
                                let ghost b3 = b2;
                                let ghost d3 = d2;
                                a2.restore(services);
                                b2.restore(services);
                                d2.restore(services);
                                proof {
                                    assert(call_ensures(old(self).spec_func(), (a0, b0, d0), (a3, b3, d3)));
                                    assert(services@ =~= old(services)@.remove(A::spec_key()).remove(B::spec_key()).remove(D::spec_key()).insert(A::spec_key(), a3.spec_val()).insert(B::spec_key(), b3.spec_val()).insert(D::spec_key(), d3.spec_val()));
                                }
                                Ok(())
                            },
                        }
                    },
                }
            },
        }
    }
}

impl<F, A, B, D> Systemized for SystemData3<F, A, B, D> where
    A: Accessor,
    B: Accessor<Store = A::Store>,
    D: Accessor<Store = A::Store>,
    F: Fn(A, B, D) -> (A, B, D),
 {
    type Store = A::Store;

    open spec fn run_rel(
        pre: Self,
        post: Self,
        pre_services: Map<u64, A::Store>,
        post_services: Map<u64, A::Store>,
        r: Result<(), FetchError>,
    ) -> bool {
        match r {
            Ok(()) => fetch_ready::<A>(pre_services) && fetch_ready::<B>(pre_services.remove(A::spec_key())) && fetch_ready::<D>(pre_services.remove(A::spec_key()).remove(B::spec_key())) && exists|a: A, b: B, d: D, a2: A, b2: B, d2: D|
                a.spec_val() == pre_services[A::spec_key()] && b.spec_val() == pre_services.remove(A::spec_key())[B::spec_key()] && d.spec_val() == pre_services.remove(A::spec_key()).remove(B::spec_key())[D::spec_key()] && #[trigger] call_ensures(pre.spec_func(), (a, b, d), (a2, b2, d2)) && post_services == pre_services.remove(A::spec_key()).remove(B::spec_key()).remove(D::spec_key()).insert(A::spec_key(), a2.spec_val()).insert(B::spec_key(), b2.spec_val()).insert(D::spec_key(), d2.spec_val()),
            Err(e) => post_services == pre_services && ((fetch_rejected::<A>(pre_services, e)) || (fetch_ready::<A>(pre_services) && fetch_rejected::<B>(pre_services.remove(A::spec_key()), e)) || (fetch_ready::<A>(pre_services) && fetch_ready::<B>(pre_services.remove(A::spec_key())) && fetch_rejected::<D>(pre_services.remove(A::spec_key()).remove(B::spec_key()), e))),
        }
    }

    closed spec fn spec_with_priority(self, priority: Priority) -> Self {
        SystemData3 { priority, ..self }
    }

    closed spec fn wf(&self) -> bool {
        forall|a: A, b: B, d: D| call_requires(self.func, (a, b, d))
    }

    closed spec fn spec_name(&self) -> Seq<u8> {
        self.name.spec_bytes()
    }

    closed spec fn spec_priority(&self) -> Priority {
        self.priority
    }

    closed spec fn spec_runs(&self) -> int {
        self.runs@
    }

    fn name(&self) -> (r: &'static str) {
        self.name
    }

    fn priority(&self) -> (p: Priority) {
        self.priority
    }

    fn set_priority(&mut self, priority: Priority) {
        self.priority = priority;
    }

    fn run(&mut self, services: &mut Services<A::Store>) -> (r: Result<(), FetchError>) {
        self.invoke(services)
    }
}

/// An adapted system over a persistent context and three accessor parameters.
pub struct SystemData3C<F, C, A, B, D> {
    name: &'static str,
    func: F,
    priority: Priority,
    runs: Ghost<int>,
    ctx: Context<C>,
    accessors: core::marker::PhantomData<(A, B, D)>,
}

impl<F, C, A, B, D> SystemData3C<F, C, A, B, D> where
    C: SystemContext,
    A: Accessor,
    B: Accessor<Store = A::Store>,
    D: Accessor<Store = A::Store>,
    F: Fn(Context<C>, A, B, D) -> (Context<C>, A, B, D),
 {
    /// The adapted function.
    pub closed spec fn spec_func(&self) -> F {
        self.func
    }

    /// The system's persistent context.
    pub closed spec fn spec_ctx(&self) -> Context<C> {
        self.ctx
    }

    /// Wraps `func` under the given diagnostic name, at normal priority, with the context at its initial value.
    pub fn new(name: &'static str, func: F) -> (r: Self)
        requires
            forall|c: Context<C>, a: A, b: B, d: D| call_requires(func, (c, a, b, d)),
        ensures
            r.wf(),
            r.spec_name() == name.spec_bytes(),
            r.spec_priority() == Priority::Normal,
            r.spec_func() == func,
            r.spec_ctx().value == C::spec_initial(),
            r.spec_runs() == 0,
    {
        SystemData3C {
            name,
            func,
            priority: Priority::Normal,
            runs: Ghost(0),
            ctx: Context::initial(),
            accessors: core::marker::PhantomData,
        }
    }

    /// Changing the priority changes nothing else: the adapted function, the persistent context,
    /// the name and the dispatch count survive.
    pub proof fn lemma_with_priority(self, priority: Priority)
        ensures
            self.spec_with_priority(priority).spec_priority() == priority,
            self.spec_with_priority(priority).spec_name() == self.spec_name(),
            self.spec_with_priority(priority).spec_runs() == self.spec_runs(),
            self.spec_with_priority(priority).spec_func() == self.spec_func(),
            self.spec_with_priority(priority).spec_ctx() == self.spec_ctx(),
    {
    }

    /// Executes one cycle and counts the dispatch: binds the persistent
    /// context, resolves the accessors in declaration order, applies the
    /// function, restores the accessed services and keeps the context the
    /// function handed back.  A failing resolution rolls the already
    /// removed services back.
    pub fn invoke(&mut self, services: &mut Services<A::Store>) -> (r: Result<(), FetchError>)
        requires
            old(self).wf(),
            old(services).wf(),
        ensures
            final(self).wf(),
            final(services).wf(),
            final(self).spec_func() == old(self).spec_func(),
            final(self).spec_name() == old(self).spec_name(),
            final(self).spec_priority() == old(self).spec_priority(),
            final(self).spec_runs() == old(self).spec_runs() + 1,
            final(self).wf() == old(self).wf(),
            Self::run_rel(*old(self), *final(self), old(services)@, final(services)@, r),
    {
        proof {
            self.runs@ = self.runs@ + 1;
        }
        match A::fetch(services) {
            Err(e) => {
                Err(e)
            },
            Ok(a) => {
                match B::fetch(services) {
                    Err(e) => {
                        a.restore(services);
                        proof {
                            assert(services@ =~= old(services)@);
                        }
                        Err(e)
                    },
                    Ok(b) => {
                        match D::fetch(services) {
                            Err(e) => {
                                b.restore(services);
                                a.restore(services);
                                proof {
                                    assert(services@ =~= old(services)@);
                                }
                                Err(e)
                            },
                            Ok(d) => {
                                let ghost a0 = a;
                                let ghost b0 = b;
                                let ghost d0 = d;
                                let mut ctx = Context { value: C::initial() };
                                core::mem::swap(&mut ctx, &mut self.ctx);
                                let (ctx2, a2, b2, d2) = (self.func)(ctx, a, b, d);
                                let ghost a3 = a2;
                                let ghost b3 = b2;
                                let ghost d3 = d2;
                                self.ctx = ctx2;
                                a2.restore(services);
                                b2.restore(services);
                                d2.restore(services);
                                proof {
                                    assert(call_ensures(old(self).spec_func(), (old(self).spec_ctx(), a0, b0, d0), (self.spec_ctx(), a3, b3, d3)));
                                    assert(services@ =~= old(services)@.remove(A::spec_key()).remove(B::spec_key()).remove(D::spec_key()).insert(A::spec_key(), a3.spec_val()).insert(B::spec_key(), b3.spec_val()).insert(D::spec_key(), d3.spec_val()));
                                }
                                Ok(())
                            },
                        }
                    },
                }
            },
        }
    }
}

impl<F, C, A, B, D> Systemized for SystemData3C<F, C, A, B, D> where
    C: SystemContext,
    A: Accessor,
    B: Accessor<Store = A::Store>,
    D: Accessor<Store = A::Store>,
    F: Fn(Context<C>, A, B, D) -> (Context<C>, A, B, D),
 {
    type Store = A::Store;

    open spec fn run_rel(
        pre: Self,
        post: Self,
        pre_services: Map<u64, A::Store>,
        post_services: Map<u64, A::Store>,
        r: Result<(), FetchError>,
    ) -> bool {
        match r {
            Ok(()) => fetch_ready::<A>(pre_services) && fetch_ready::<B>(pre_services.remove(A::spec_key())) && fetch_ready::<D>(pre_services.remove(A::spec_key()).remove(B::spec_key())) && exists|a: A, b: B, d: D, a2: A, b2: B, d2: D|
                a.spec_val() == pre_services[A::spec_key()] && b.spec_val() == pre_services.remove(A::spec_key())[B::spec_key()] && d.spec_val() == pre_services.remove(A::spec_key()).remove(B::spec_key())[D::spec_key()] && #[trigger] call_ensures(pre.spec_func(), (pre.spec_ctx(), a, b, d), (post.spec_ctx(), a2, b2, d2)) && post_services == pre_services.remove(A::spec_key()).remove(B::spec_key()).remove(D::spec_key()).insert(A::spec_key(), a2.spec_val()).insert(B::spec_key(), b2.spec_val()).insert(D::spec_key(), d2.spec_val()),
            Err(e) => post_services == pre_services && post.spec_ctx() == pre.spec_ctx() && ((fetch_rejected::<A>(pre_services, e)) || (fetch_ready::<A>(pre_services) && fetch_rejected::<B>(pre_services.remove(A::spec_key()), e)) || (fetch_ready::<A>(pre_services) && fetch_ready::<B>(pre_services.remove(A::spec_key())) && fetch_rejected::<D>(pre_services.remove(A::spec_key()).remove(B::spec_key()), e))),
        }
    }

    closed spec fn spec_with_priority(self, priority: Priority) -> Self {
        SystemData3C { priority, ..self }
    }

    closed spec fn wf(&self) -> bool {
        forall|c: Context<C>, a: A, b: B, d: D| call_requires(self.func, (c, a, b, d))
    }

    closed spec fn spec_name(&self) -> Seq<u8> {
        self.name.spec_bytes()
    }

    closed spec fn spec_priority(&self) -> Priority {
        self.priority
    }

    closed spec fn spec_runs(&self) -> int {
        self.runs@
    }

    fn name(&self) -> (r: &'static str) {
        self.name
    }

    fn priority(&self) -> (p: Priority) {
        self.priority
    }

    fn set_priority(&mut self, priority: Priority) {
        self.priority = priority;
    }

    fn run(&mut self, services: &mut Services<A::Store>) -> (r: Result<(), FetchError>) {
        self.invoke(services)
    }
}

/// An adapted system over four accessor parameters and no context.
pub struct SystemData4<F, A, B, D, E> {
    name: &'static str,
    func: F,
    priority: Priority,
    runs: Ghost<int>,
    accessors: core::marker::PhantomData<(A, B, D, E)>,
}

impl<F, A, B, D, E> SystemData4<F, A, B, D, E> where
    A: Accessor,
    B: Accessor<Store = A::Store>,
    D: Accessor<Store = A::Store>,
    E: Accessor<Store = A::Store>,
    F: Fn(A, B, D, E) -> (A, B, D, E),
 {
    /// The adapted function.
    pub closed spec fn spec_func(&self) -> F {
        self.func
    }

    /// Wraps `func` under the given diagnostic name, at normal priority.
    pub fn new(name: &'static str, func: F) -> (r: Self)
        requires
            forall|a: A, b: B, d: D, e: E| call_requires(func, (a, b, d, e)),
        ensures
            r.wf(),
            r.spec_name() == name.spec_bytes(),
            r.spec_priority() == Priority::Normal,
            r.spec_func() == func,
            r.spec_runs() == 0,
    {
        SystemData4 {
            name,
            func,
            priority: Priority::Normal,
            runs: Ghost(0),
            accessors: core::marker::PhantomData,
        }
    }

    /// Changing the priority changes nothing else: the adapted function,
    /// the name and the dispatch count survive.
    pub proof fn lemma_with_priority(self, priority: Priority)
        ensures
            self.spec_with_priority(priority).spec_priority() == priority,
            self.spec_with_priority(priority).spec_name() == self.spec_name(),
            self.spec_with_priority(priority).spec_runs() == self.spec_runs(),
            self.spec_with_priority(priority).spec_func() == self.spec_func(),
    {
    }

    /// Executes one cycle and counts the dispatch: resolves the accessors
    /// in declaration order, applies the function, and restores the
    /// accessed services.  A failing resolution rolls the already removed
    /// services back.
    pub fn invoke(&mut self, services: &mut Services<A::Store>) -> (r: Result<(), FetchError>)
        requires
            old(self).wf(),
            old(services).wf(),
        ensures
            final(self).spec_func() == old(self).spec_func(),
            final(self).spec_name() == old(self).spec_name(),
            final(self).spec_priority() == old(self).spec_priority(),
            final(self).spec_runs() == old(self).spec_runs() + 1,
            final(self).wf() == old(self).wf(),
            final(services).wf(),
            Self::run_rel(*old(self), *final(self), old(services)@, final(services)@, r),
    {
        proof {
            self.runs@ = self.runs@ + 1;
        }
        match A::fetch(services) {
            Err(e) => {
                Err(e)
            },
            Ok(a) => {
                match B::fetch(services) {
                    Err(e) => {
                        a.restore(services);
                        proof {
                            assert(services@ =~= old(services)@);
                        }
                        Err(e)
                    },
                    Ok(b) => {
                        match D::fetch(services) {
                            Err(e) => {
                                b.restore(services);
                                a.restore(services);
                                proof {
                                    assert(services@ =~= old(services)@);
                                }
                                Err(e)
                            },
                            Ok(d) => {
                                match E::fetch(services) {
                                    Err(e) => {
                                        d.restore(services);
                                        b.restore(services);
                                        a.restore(services);
                                        proof {
                                            assert(services@ =~= old(services)@);
                                        }
                                        Err(e)
                                    },
                                    Ok(e) => {
                                        let ghost a0 = a;
                                        let ghost b0 = b;
                                        let ghost d0 = d;
                                        let ghost e0 = e;
                                        let (a2, b2, d2, e2) = (self.func)(a, b, d, e);
                                        let ghost a3 = a2;
                                        let ghost b3 = b2;
                                        let ghost d3 = d2;
                                        let ghost e3 = e2;
                                        a2.restore(services);
                                        b2.restore(services);
                                        d2.restore(services);
                                        e2.restore(services);
                                        proof {
                                            assert(call_ensures(old(self).spec_func(), (a0, b0, d0, e0), (a3, b3, d3, e3)));
                                            assert(services@ =~= old(services)@.remove(A::spec_key()).remove(B::spec_key()).remove(D::spec_key()).remove(E::spec_key()).insert(A::spec_key(), a3.spec_val()).insert(B::spec_key(), b3.spec_val()).insert(D::spec_key(), d3.spec_val()).insert(E::spec_key(), e3.spec_val()));
                                        }
                                        Ok(())
                                    },
                                }
                            },
                        }
                    },
                }
            },
        }
    }
}

impl<F, A, B, D, E> Systemized for SystemData4<F, A, B, D, E> where
    A: Accessor,
    B: Accessor<Store = A::Store>,
    D: Accessor<Store = A::Store>,
    E: Accessor<Store = A::Store>,
    F: Fn(A, B, D, E) -> (A, B, D, E),
 {
    type Store = A::Store;

    open spec fn run_rel(
        pre: Self,
        post: Self,
        pre_services: Map<u64, A::Store>,
        post_services: Map<u64, A::Store>,
        r: Result<(), FetchError>,
    ) -> bool {
        match r {
            Ok(()) => fetch_ready::<A>(pre_services) && fetch_ready::<B>(pre_services.remove(A::spec_key())) && fetch_ready::<D>(pre_services.remove(A::spec_key()).remove(B::spec_key())) && fetch_ready::<E>(pre_services.remove(A::spec_key()).remove(B::spec_key()).remove(D::spec_key())) && exists|a: A, b: B, d: D, e: E, a2: A, b2: B, d2: D, e2: E|
                a.spec_val() == pre_services[A::spec_key()] && b.spec_val() == pre_services.remove(A::spec_key())[B::spec_key()] && d.spec_val() == pre_services.remove(A::spec_key()).remove(B::spec_key())[D::spec_key()] && e.spec_val() == pre_services.remove(A::spec_key()).remove(B::spec_key()).remove(D::spec_key())[E::spec_key()] && #[trigger] call_ensures(pre.spec_func(), (a, b, d, e), (a2, b2, d2, e2)) && post_services == pre_services.remove(A::spec_key()).remove(B::spec_key()).remove(D::spec_key()).remove(E::spec_key()).insert(A::spec_key(), a2.spec_val()).insert(B::spec_key(), b2.spec_val()).insert(D::spec_key(), d2.spec_val()).insert(E::spec_key(), e2.spec_val()),
            Err(e) => post_services == pre_services && ((fetch_rejected::<A>(pre_services, e)) || (fetch_ready::<A>(pre_services) && fetch_rejected::<B>(pre_services.remove(A::spec_key()), e)) || (fetch_ready::<A>(pre_services) && fetch_ready::<B>(pre_services.remove(A::spec_key())) && fetch_rejected::<D>(pre_services.remove(A::spec_key()).remove(B::spec_key()), e)) || (fetch_ready::<A>(pre_services) && fetch_ready::<B>(pre_services.remove(A::spec_key())) && fetch_ready::<D>(pre_services.remove(A::spec_key()).remove(B::spec_key())) && fetch_rejected::<E>(pre_services.remove(A::spec_key()).remove(B::spec_key()).remove(D::spec_key()), e))),
        }
    }

    closed spec fn spec_with_priority(self, priority: Priority) -> Self {
        SystemData4 { priority, ..self }
    }

    closed spec fn wf(&self) -> bool {
        forall|a: A, b: B, d: D, e: E| call_requires(self.func, (a, b, d, e))
    }

    closed spec fn spec_name(&self) -> Seq<u8> {
        self.name.spec_bytes()
    }

    closed spec fn spec_priority(&self) -> Priority {
        self.priority
    }

    closed spec fn spec_runs(&self) -> int {
        self.runs@
    }

    fn name(&self) -> (r: &'static str) {
        self.name
    }

    fn priority(&self) -> (p: Priority) {
        self.priority
    }

    fn set_priority(&mut self, priority: Priority) {
        self.priority = priority;
    }

    fn run(&mut self, services: &mut Services<A::Store>) -> (r: Result<(), FetchError>) {
        self.invoke(services)
    }
}

/// An adapted system over a persistent context and four accessor parameters.
pub struct SystemData4C<F, C, A, B, D, E> {
    name: &'static str,
    func: F,
    priority: Priority,
    runs: Ghost<int>,
    ctx: Context<C>,
    accessors: core::marker::PhantomData<(A, B, D, E)>,
}

impl<F, C, A, B, D, E> SystemData4C<F, C, A, B, D, E> where
    C: SystemContext,
    A: Accessor,
    B: Accessor<Store = A::Store>,
    D: Accessor<Store = A::Store>,
    E: Accessor<Store = A::Store>,
    F: Fn(Context<C>, A, B, D, E) -> (Context<C>, A, B, D, E),
 {
    /// The adapted function.
    pub closed spec fn spec_func(&self) -> F {
        self.func
    }

    /// The system's persistent context.
    pub closed spec fn spec_ctx(&self) -> Context<C> {
        self.ctx
    }

    /// Wraps `func` under the given diagnostic name, at normal priority, with the context at its initial value.
    pub fn new(name: &'static str, func: F) -> (r: Self)
        requires
            forall|c: Context<C>, a: A, b: B, d: D, e: E| call_requires(func, (c, a, b, d, e)),
        ensures
            r.wf(),
            r.spec_name() == name.spec_bytes(),
            r.spec_priority() == Priority::Normal,
            r.spec_func() == func,
            r.spec_ctx().value == C::spec_initial(),
            r.spec_runs() == 0,
    {
        SystemData4C {
            name,
            func,
            priority: Priority::Normal,
            runs: Ghost(0),
            ctx: Context::initial(),
            accessors: core::marker::PhantomData,
        }
    }

    /// Changing the priority changes nothing else: the adapted function, the persistent context,
    /// the name and the dispatch count survive.
    pub proof fn lemma_with_priority(self, priority: Priority)
        ensures
            self.spec_with_priority(priority).spec_priority() == priority,
            self.spec_with_priority(priority).spec_name() == self.spec_name(),
            self.spec_with_priority(priority).spec_runs() == self.spec_runs(),
            self.spec_with_priority(priority).spec_func() == self.spec_func(),
            self.spec_with_priority(priority).spec_ctx() == self.spec_ctx(),
    {
    }

    /// Executes one cycle and counts the dispatch: binds the persistent
    /// context, resolves the accessors in declaration order, applies the
    /// function, restores the accessed services and keeps the context the
    /// function handed back.  A failing resolution rolls the already
    /// removed services back.
    pub fn invoke(&mut self, services: &mut Services<A::Store>) -> (r: Result<(), FetchError>)
        requires
            old(self).wf(),
            old(services).wf(),
        ensures
            final(self).wf(),
            final(services).wf(),
            final(self).spec_func() == old(self).spec_func(),
            final(self).spec_name() == old(self).spec_name(),
            final(self).spec_priority() == old(self).spec_priority(),
            final(self).spec_runs() == old(self).spec_runs() + 1,
            final(self).wf() == old(self).wf(),
            Self::run_rel(*old(self), *final(self), old(services)@, final(services)@, r),
    {
        proof {
            self.runs@ = self.runs@ + 1;
        }
        match A::fetch(services) {
            Err(e) => {
                Err(e)
            },
            Ok(a) => {
                match B::fetch(services) {
                    Err(e) => {
                        a.restore(services);
                        proof {
                            assert(services@ =~= old(services)@);
                        }
                        Err(e)
                    },
                    Ok(b) => {
                        match D::fetch(services) {
                            Err(e) => {
                                b.restore(services);
                                a.restore(services);
                                proof {
                                    assert(services@ =~= old(services)@);
                                }
                                Err(e)
                            },
                            Ok(d) => {
                                match E::fetch(services) {
                                    Err(e) => {
                                        d.restore(services);
                                        b.restore(services);
                                        a.restore(services);
                                        proof {
                                            assert(services@ =~= old(services)@);
                                        }
                                        Err(e)
                                    },
                                    Ok(e) => {
                                        let ghost a0 = a;
                                        let ghost b0 = b;
                                        let ghost d0 = d;
                                        let ghost e0 = e;
                                        let mut ctx = Context { value: C::initial() };
                                        core::mem::swap(&mut ctx, &mut self.ctx);
                                        let (ctx2, a2, b2, d2, e2) = (self.func)(ctx, a, b, d, e);
                                        let ghost a3 = a2;
                                        let ghost b3 = b2;
                                        let ghost d3 = d2;
                                        let ghost e3 = e2;
                                        self.ctx = ctx2;
                                        a2.restore(services);
                                        b2.restore(services);
                                        d2.restore(services);
                                        e2.restore(services);
                                        proof {
                                            assert(call_ensures(old(self).spec_func(), (old(self).spec_ctx(), a0, b0, d0, e0), (self.spec_ctx(), a3, b3, d3, e3)));
                                            assert(services@ =~= old(services)@.remove(A::spec_key()).remove(B::spec_key()).remove(D::spec_key()).remove(E::spec_key()).insert(A::spec_key(), a3.spec_val()).insert(B::spec_key(), b3.spec_val()).insert(D::spec_key(), d3.spec_val()).insert(E::spec_key(), e3.spec_val()));
                                        }
                                        Ok(())
                                    },
                                }
                            },
                        }
                    },
                }
            },
        }
    }
}

impl<F, C, A, B, D, E> Systemized for SystemData4C<F, C, A, B, D, E> where
    C: SystemContext,
    A: Accessor,
    B: Accessor<Store = A::Store>,
    D: Accessor<Store = A::Store>,
    E: Accessor<Store = A::Store>,
    F: Fn(Context<C>, A, B, D, E) -> (Context<C>, A, B, D, E),
 {
    type Store = A::Store;

    open spec fn run_rel(
        pre: Self,
        post: Self,
        pre_services: Map<u64, A::Store>,
        post_services: Map<u64, A::Store>,
        r: Result<(), FetchError>,
    ) -> bool {
        match r {
            Ok(()) => fetch_ready::<A>(pre_services) && fetch_ready::<B>(pre_services.remove(A::spec_key())) && fetch_ready::<D>(pre_services.remove(A::spec_key()).remove(B::spec_key())) && fetch_ready::<E>(pre_services.remove(A::spec_key()).remove(B::spec_key()).remove(D::spec_key())) && exists|a: A, b: B, d: D, e: E, a2: A, b2: B, d2: D, e2: E|
                a.spec_val() == pre_services[A::spec_key()] && b.spec_val() == pre_services.remove(A::spec_key())[B::spec_key()] && d.spec_val() == pre_services.remove(A::spec_key()).remove(B::spec_key())[D::spec_key()] && e.spec_val() == pre_services.remove(A::spec_key()).remove(B::spec_key()).remove(D::spec_key())[E::spec_key()] && #[trigger] call_ensures(pre.spec_func(), (pre.spec_ctx(), a, b, d, e), (post.spec_ctx(), a2, b2, d2, e2)) && post_services == pre_services.remove(A::spec_key()).remove(B::spec_key()).remove(D::spec_key()).remove(E::spec_key()).insert(A::spec_key(), a2.spec_val()).insert(B::spec_key(), b2.spec_val()).insert(D::spec_key(), d2.spec_val()).insert(E::spec_key(), e2.spec_val()),
            Err(e) => post_services == pre_services && post.spec_ctx() == pre.spec_ctx() && ((fetch_rejected::<A>(pre_services, e)) || (fetch_ready::<A>(pre_services) && fetch_rejected::<B>(pre_services.remove(A::spec_key()), e)) || (fetch_ready::<A>(pre_services) && fetch_ready::<B>(pre_services.remove(A::spec_key())) && fetch_rejected::<D>(pre_services.remove(A::spec_key()).remove(B::spec_key()), e)) || (fetch_ready::<A>(pre_services) && fetch_ready::<B>(pre_services.remove(A::spec_key())) && fetch_ready::<D>(pre_services.remove(A::spec_key()).remove(B::spec_key())) && fetch_rejected::<E>(pre_services.remove(A::spec_key()).remove(B::spec_key()).remove(D::spec_key()), e))),
        }
    }

    closed spec fn spec_with_priority(self, priority: Priority) -> Self {
        SystemData4C { priority, ..self }
    }

    closed spec fn wf(&self) -> bool {
        forall|c: Context<C>, a: A, b: B, d: D, e: E| call_requires(self.func, (c, a, b, d, e))
    }

    closed spec fn spec_name(&self) -> Seq<u8> {
        self.name.spec_bytes()
    }

    closed spec fn spec_priority(&self) -> Priority {
        self.priority
    }

    closed spec fn spec_runs(&self) -> int {
        self.runs@
    }

    fn name(&self) -> (r: &'static str) {
        self.name
    }

    fn priority(&self) -> (p: Priority) {
        self.priority
    }

    fn set_priority(&mut self, priority: Priority) {
        self.priority = priority;
    }

    fn run(&mut self, services: &mut Services<A::Store>) -> (r: Result<(), FetchError>) {
        self.invoke(services)
    }
}

/// Abstraction for a function that can be turned into a [`System`].
///
/// Adapters are provided for functions over one to four accessor
/// parameters, each arity optionally preceded by a persistent [`Context`]
/// parameter: four accessors is this implementation's supported bound.  A
/// system needing more state groups it into fewer, larger services.
pub trait IntoSystem<C, S>: Sized {
    /// The adapted system data type.
    type Output: Systemized;

    /// Whether the function accepts every accessor bundle it may be
    /// handed.  A function without preconditions accepts them all; one with
    /// preconditions cannot be adapted, since the dispatcher may hand it
    /// any registered service state.
    spec fn accepts(self) -> bool;

    /// The name the adapted system carries: the registered qualified name,
    /// or the empty name for a bare function.
    spec fn spec_given_name(self) -> Seq<u8>;

    /// The output wraps exactly this function: every dispatch applies it,
    /// and any persistent context starts at its initial value.
    spec fn wraps(self, out: &Self::Output) -> bool;

    /// Converts the function into dispatchable system data.
    fn into_system(self) -> (r: Self::Output)
        requires
            self.accepts(),
        ensures
            r.wf(),
            r.spec_priority() == Priority::Normal,
            r.spec_name() == self.spec_given_name(),
            r.spec_runs() == 0,
            self.wraps(&r),
    ;
}

/// Marker for the adaptation of a function registered together with its
/// qualified name.  Run-level inference is an opt-in convention: a system
/// adapted from a bare function carries the empty name and lands in the
/// default run level, while a `(name, function)` pair hands the qualified
/// name to the suffix inference.
pub struct Named;

impl<F, A> IntoSystem<(), (A,)> for F where A: Accessor, F: Fn(A) -> A {
    type Output = SystemData1<F, A>;

    open spec fn accepts(self) -> bool {
        forall|a: A| call_requires(self, (a,))
    }

    open spec fn spec_given_name(self) -> Seq<u8> {
        ("").spec_bytes()
    }

    open spec fn wraps(self, out: &SystemData1<F, A>) -> bool {
        out.spec_func() == self
    }

    fn into_system(self) -> (r: SystemData1<F, A>) {
        SystemData1::new("", self)
    }
}

impl<F, A> IntoSystem<Named, (A,)> for (&'static str, F) where A: Accessor, F: Fn(A) -> A {
    type Output = SystemData1<F, A>;

    open spec fn accepts(self) -> bool {
        forall|a: A| call_requires(self.1, (a,))
    }

    open spec fn spec_given_name(self) -> Seq<u8> {
        self.0.spec_bytes()
    }

    open spec fn wraps(self, out: &SystemData1<F, A>) -> bool {
        out.spec_func() == self.1
    }

    fn into_system(self) -> (r: SystemData1<F, A>) {
        SystemData1::new(self.0, self.1)
    }
}

impl<F, C, A> IntoSystem<(C,), (A,)> for F where
    C: SystemContext,
    A: Accessor,
    F: Fn(Context<C>, A) -> (Context<C>, A),
 {
    type Output = SystemData1C<F, C, A>;

    open spec fn accepts(self) -> bool {
        forall|c: Context<C>, a: A| call_requires(self, (c, a))
    }

    open spec fn spec_given_name(self) -> Seq<u8> {
        ("").spec_bytes()
    }

    open spec fn wraps(self, out: &SystemData1C<F, C, A>) -> bool {
        out.spec_func() == self && out.spec_ctx().value == C::spec_initial()
    }

    fn into_system(self) -> (r: SystemData1C<F, C, A>) {
        SystemData1C::new("", self)
    }
}

impl<F, C, A> IntoSystem<(Named, C), (A,)> for (&'static str, F) where
    C: SystemContext,
    A: Accessor,
    F: Fn(Context<C>, A) -> (Context<C>, A),
 {
    type Output = SystemData1C<F, C, A>;

    open spec fn accepts(self) -> bool {
        forall|c: Context<C>, a: A| call_requires(self.1, (c, a))
    }

    open spec fn spec_given_name(self) -> Seq<u8> {
        self.0.spec_bytes()
    }

    open spec fn wraps(self, out: &SystemData1C<F, C, A>) -> bool {
        out.spec_func() == self.1 && out.spec_ctx().value == C::spec_initial()
    }

    fn into_system(self) -> (r: SystemData1C<F, C, A>) {
        SystemData1C::new(self.0, self.1)
    }
}

impl<F, A, B> IntoSystem<(), (A, B)> for F where
    A: Accessor,
    B: Accessor<Store = A::Store>,
    F: Fn(A, B) -> (A, B),
 {
    type Output = SystemData2<F, A, B>;

    open spec fn accepts(self) -> bool {
        forall|a: A, b: B| call_requires(self, (a, b))
    }

    open spec fn spec_given_name(self) -> Seq<u8> {
        ("").spec_bytes()
    }

    open spec fn wraps(self, out: &SystemData2<F, A, B>) -> bool {
        out.spec_func() == self
    }

    fn into_system(self) -> (r: SystemData2<F, A, B>) {
        SystemData2::new("", self)
    }
}

impl<F, A, B> IntoSystem<Named, (A, B)> for (&'static str, F) where
    A: Accessor,
    B: Accessor<Store = A::Store>,
    F: Fn(A, B) -> (A, B),
 {
    type Output = SystemData2<F, A, B>;

    open spec fn accepts(self) -> bool {
        forall|a: A, b: B| call_requires(self.1, (a, b))
    }

    open spec fn spec_given_name(self) -> Seq<u8> {
        self.0.spec_bytes()
    }

    open spec fn wraps(self, out: &SystemData2<F, A, B>) -> bool {
        out.spec_func() == self.1
    }

    fn into_system(self) -> (r: SystemData2<F, A, B>) {
        SystemData2::new(self.0, self.1)
    }
}

impl<F, C, A, B> IntoSystem<(C,), (A, B)> for F where
    C: SystemContext,
    A: Accessor,
    B: Accessor<Store = A::Store>,
    F: Fn(Context<C>, A, B) -> (Context<C>, A, B),
 {
    type Output = SystemData2C<F, C, A, B>;

    open spec fn accepts(self) -> bool {
        forall|c: Context<C>, a: A, b: B| call_requires(self, (c, a, b))
    }

    open spec fn spec_given_name(self) -> Seq<u8> {
        ("").spec_bytes()
    }

    open spec fn wraps(self, out: &SystemData2C<F, C, A, B>) -> bool {
        out.spec_func() == self && out.spec_ctx().value == C::spec_initial()
    }

    fn into_system(self) -> (r: SystemData2C<F, C, A, B>) {
        SystemData2C::new("", self)
    }
}

impl<F, C, A, B> IntoSystem<(Named, C), (A, B)> for (&'static str, F) where
    C: SystemContext,
    A: Accessor,
    B: Accessor<Store = A::Store>,
    F: Fn(Context<C>, A, B) -> (Context<C>, A, B),
 {
    type Output = SystemData2C<F, C, A, B>;

    open spec fn accepts(self) -> bool {
        forall|c: Context<C>, a: A, b: B| call_requires(self.1, (c, a, b))
    }

    open spec fn spec_given_name(self) -> Seq<u8> {
        self.0.spec_bytes()
    }

    open spec fn wraps(self, out: &SystemData2C<F, C, A, B>) -> bool {
        out.spec_func() == self.1 && out.spec_ctx().value == C::spec_initial()
    }

    fn into_system(self) -> (r: SystemData2C<F, C, A, B>) {
        SystemData2C::new(self.0, self.1)
    }
}


impl<F, A, B, D> IntoSystem<(), (A, B, D)> for F where
    A: Accessor,
    B: Accessor<Store = A::Store>,
    D: Accessor<Store = A::Store>,
    F: Fn(A, B, D) -> (A, B, D),
 {
    type Output = SystemData3<F, A, B, D>;

    open spec fn accepts(self) -> bool {
        forall|a: A, b: B, d: D| call_requires(self, (a, b, d))
    }

    open spec fn spec_given_name(self) -> Seq<u8> {
        ("").spec_bytes()
    }

    open spec fn wraps(self, out: &SystemData3<F, A, B, D>) -> bool {
        out.spec_func() == self
    }

    fn into_system(self) -> (r: SystemData3<F, A, B, D>) {
        SystemData3::new("", self)
    }
}

impl<F, A, B, D> IntoSystem<Named, (A, B, D)> for (&'static str, F) where
    A: Accessor,
    B: Accessor<Store = A::Store>,
    D: Accessor<Store = A::Store>,
    F: Fn(A, B, D) -> (A, B, D),
 {
    type Output = SystemData3<F, A, B, D>;

    open spec fn accepts(self) -> bool {
        forall|a: A, b: B, d: D| call_requires(self.1, (a, b, d))
    }

    open spec fn spec_given_name(self) -> Seq<u8> {
        self.0.spec_bytes()
    }

    open spec fn wraps(self, out: &SystemData3<F, A, B, D>) -> bool {
        out.spec_func() == self.1
    }

    fn into_system(self) -> (r: SystemData3<F, A, B, D>) {
        SystemData3::new(self.0, self.1)
    }
}

impl<F, C, A, B, D> IntoSystem<(C,), (A, B, D)> for F where
    C: SystemContext,
    A: Accessor,
    B: Accessor<Store = A::Store>,
    D: Accessor<Store = A::Store>,
    F: Fn(Context<C>, A, B, D) -> (Context<C>, A, B, D),
 {
    type Output = SystemData3C<F, C, A, B, D>;

    open spec fn accepts(self) -> bool {
        forall|c: Context<C>, a: A, b: B, d: D| call_requires(self, (c, a, b, d))
    }

    open spec fn spec_given_name(self) -> Seq<u8> {
        ("").spec_bytes()
    }

    open spec fn wraps(self, out: &SystemData3C<F, C, A, B, D>) -> bool {
        out.spec_func() == self && out.spec_ctx().value == C::spec_initial()
    }

    fn into_system(self) -> (r: SystemData3C<F, C, A, B, D>) {
        SystemData3C::new("", self)
    }
}

impl<F, C, A, B, D> IntoSystem<(Named, C), (A, B, D)> for (&'static str, F) where
    C: SystemContext,
    A: Accessor,
    B: Accessor<Store = A::Store>,
    D: Accessor<Store = A::Store>,
    F: Fn(Context<C>, A, B, D) -> (Context<C>, A, B, D),
 {
    type Output = SystemData3C<F, C, A, B, D>;

    open spec fn accepts(self) -> bool {
        forall|c: Context<C>, a: A, b: B, d: D| call_requires(self.1, (c, a, b, d))
    }

    open spec fn spec_given_name(self) -> Seq<u8> {
        self.0.spec_bytes()
    }

    open spec fn wraps(self, out: &SystemData3C<F, C, A, B, D>) -> bool {
        out.spec_func() == self.1 && out.spec_ctx().value == C::spec_initial()
    }

    fn into_system(self) -> (r: SystemData3C<F, C, A, B, D>) {
        SystemData3C::new(self.0, self.1)
    }
}

impl<F, A, B, D, E> IntoSystem<(), (A, B, D, E)> for F where
    A: Accessor,
    B: Accessor<Store = A::Store>,
    D: Accessor<Store = A::Store>,
    E: Accessor<Store = A::Store>,
    F: Fn(A, B, D, E) -> (A, B, D, E),
 {
    type Output = SystemData4<F, A, B, D, E>;

    open spec fn accepts(self) -> bool {
        forall|a: A, b: B, d: D, e: E| call_requires(self, (a, b, d, e))
    }

    open spec fn spec_given_name(self) -> Seq<u8> {
        ("").spec_bytes()
    }

    open spec fn wraps(self, out: &SystemData4<F, A, B, D, E>) -> bool {
        out.spec_func() == self
    }

    fn into_system(self) -> (r: SystemData4<F, A, B, D, E>) {
        SystemData4::new("", self)
    }
}

impl<F, A, B, D, E> IntoSystem<Named, (A, B, D, E)> for (&'static str, F) where
    A: Accessor,
    B: Accessor<Store = A::Store>,
    D: Accessor<Store = A::Store>,
    E: Accessor<Store = A::Store>,
    F: Fn(A, B, D, E) -> (A, B, D, E),
 {
    type Output = SystemData4<F, A, B, D, E>;

    open spec fn accepts(self) -> bool {
        forall|a: A, b: B, d: D, e: E| call_requires(self.1, (a, b, d, e))
    }

    open spec fn spec_given_name(self) -> Seq<u8> {
        self.0.spec_bytes()
    }

    open spec fn wraps(self, out: &SystemData4<F, A, B, D, E>) -> bool {
        out.spec_func() == self.1
    }

    fn into_system(self) -> (r: SystemData4<F, A, B, D, E>) {
        SystemData4::new(self.0, self.1)
    }
}

impl<F, C, A, B, D, E> IntoSystem<(C,), (A, B, D, E)> for F where
    C: SystemContext,
    A: Accessor,
    B: Accessor<Store = A::Store>,
    D: Accessor<Store = A::Store>,
    E: Accessor<Store = A::Store>,
    F: Fn(Context<C>, A, B, D, E) -> (Context<C>, A, B, D, E),
 {
    type Output = SystemData4C<F, C, A, B, D, E>;

    open spec fn accepts(self) -> bool {
        forall|c: Context<C>, a: A, b: B, d: D, e: E| call_requires(self, (c, a, b, d, e))
    }

    open spec fn spec_given_name(self) -> Seq<u8> {
        ("").spec_bytes()
    }

    open spec fn wraps(self, out: &SystemData4C<F, C, A, B, D, E>) -> bool {
        out.spec_func() == self && out.spec_ctx().value == C::spec_initial()
    }

    fn into_system(self) -> (r: SystemData4C<F, C, A, B, D, E>) {
        SystemData4C::new("", self)
    }
}

impl<F, C, A, B, D, E> IntoSystem<(Named, C), (A, B, D, E)> for (&'static str, F) where
    C: SystemContext,
    A: Accessor,
    B: Accessor<Store = A::Store>,
    D: Accessor<Store = A::Store>,
    E: Accessor<Store = A::Store>,
    F: Fn(Context<C>, A, B, D, E) -> (Context<C>, A, B, D, E),
 {
    type Output = SystemData4C<F, C, A, B, D, E>;

    open spec fn accepts(self) -> bool {
        forall|c: Context<C>, a: A, b: B, d: D, e: E| call_requires(self.1, (c, a, b, d, e))
    }

    open spec fn spec_given_name(self) -> Seq<u8> {
        self.0.spec_bytes()
    }

    open spec fn wraps(self, out: &SystemData4C<F, C, A, B, D, E>) -> bool {
        out.spec_func() == self.1 && out.spec_ctx().value == C::spec_initial()
    }

    fn into_system(self) -> (r: SystemData4C<F, C, A, B, D, E>) {
        SystemData4C::new(self.0, self.1)
    }
}

/// A system whose function hands every accessor back unchanged leaves the
/// registry exactly as it found it: invoking such a system any number of
/// times is idempotent on the services.  The premise names the successful
/// outcome of [`SystemData1::invoke`].
pub proof fn lemma_noop_system_preserves_services<F: Fn(A) -> A, A: Accessor>(
    pre: Map<u64, A::Store>,
    post: Map<u64, A::Store>,
    func: F,
)
    requires
        forall|a: A, a2: A| #[trigger] call_ensures(func, (a,), a2) ==> a2 == a,
        pre.contains_key(A::spec_key()),
        exists|a: A, a2: A|
            a.spec_val() == pre[A::spec_key()] && #[trigger] call_ensures(func, (a,), a2) && post
                == pre.insert(A::spec_key(), a2.spec_val()),
    ensures
        post == pre,
{
    let (a, a2): (A, A) = choose|a: A, a2: A|
        a.spec_val() == pre[A::spec_key()] && #[trigger] call_ensures(func, (a,), a2) && post
            == pre.insert(A::spec_key(), a2.spec_val());
    assert(a2 == a);
    assert(pre.insert(A::spec_key(), pre[A::spec_key()]) =~= pre);
}

/// Wrapper for system functions: the adapted system data together with its
/// run level.
pub struct System<D> {
    /// The adapted system data.
    pub data: D,
    /// System run level.
    pub run_level: RunLevel,
}

impl<D: Systemized> System<D> {
    /// Constructs a system from a function, inferring the run level from the
    /// function's diagnostic name (default `Standard`).
    pub fn from<C, S, F: IntoSystem<C, S, Output = D>>(func: F) -> (r: Self)
        requires
            func.accepts(),
        ensures
            r.data.wf(),
            r.data.spec_priority() == Priority::Normal,
            r.data.spec_name() == func.spec_given_name(),
            r.data.spec_runs() == 0,
            func.wraps(&r.data),
            r.run_level == run_level_of_name(func.spec_given_name()),
    {
        let data = func.into_system();
        let run_level = RunLevel::of_name(data.name());
        System { data, run_level }
    }

    /// Adds an option to the system.
    pub fn with<T>(self, option: T) -> (r: Self) where Self: SystemOption<T>
        requires
            self.option_ok(),
        ensures
            r.option_ok(),
            Self::option_applied(self, r, option),
    {
        let mut s = self;
        s.set_option(option);
        s
    }
}

/// System option abstract interface.
pub trait SystemOption<T>: Sized {
    /// Whether the option may be applied in the system's current state.
    spec fn option_ok(&self) -> bool;

    /// How the system after the option relates to the system before it.
    spec fn option_applied(pre: Self, post: Self, option: T) -> bool;

    /// Customizes the system with an option.
    fn set_option(&mut self, option: T)
        requires
            old(self).option_ok(),
        ensures
            final(self).option_ok(),
            Self::option_applied(*old(self), *final(self), option),
    ;
}

/// [`RunLevel`] option implementation: an explicit run level overrides the
/// one inferred from the name.
impl<D: Systemized> SystemOption<RunLevel> for System<D> {
    open spec fn option_ok(&self) -> bool {
        self.data.wf()
    }

    open spec fn option_applied(pre: Self, post: Self, option: RunLevel) -> bool {
        post.run_level == option && post.data == pre.data
    }

    fn set_option(&mut self, option: RunLevel) {
        self.run_level = option;
    }
}

/// [`Priority`] option implementation: overrides the system's priority and
/// changes nothing else — run level, name and dispatch count survive here,
/// and each adapter's `lemma_with_priority` spells out that the adapted
/// function and any persistent context survive as well.
impl<D: Systemized> SystemOption<Priority> for System<D> {
    open spec fn option_ok(&self) -> bool {
        self.data.wf()
    }

    open spec fn option_applied(pre: Self, post: Self, option: Priority) -> bool {
        post.run_level == pre.run_level && post.data == pre.data.spec_with_priority(option)
            && post.data.spec_priority() == option && post.data.spec_name()
            == pre.data.spec_name() && post.data.spec_runs() == pre.data.spec_runs()
    }

    fn set_option(&mut self, option: Priority) {
        self.data.set_priority(option);
    }
}

} // verus!

