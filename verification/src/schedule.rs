//! The dispatcher: owns the registered systems, groups them by run level,
//! orders them within a run level by priority, higher priorities first and
//! stable with respect to registration order, and drives the lifecycle
//! phases.
//!
//! The lifecycle is a small state machine: `Startup` systems execute exactly
//! once, before any other phase; thereafter every application cycle executes
//! `Bind`, `Standard`, `Render` and `Release` in that fixed order, and
//! `Resize` runs only in response to an external resize event.
//!
//! A system whose accessor cannot be resolved is skipped for that pass and
//! its error reported to the caller; the remaining systems of the phase
//! still run.  What every pass computes on the registry is pinned down by
//! [`pass_rel`]: a chain of [`Systemized::run_rel`] dispatch steps, one per
//! registered system, in dispatch order.

use vstd::prelude::*;
use vstd::string::StringSliceAdditionalSpecFns;

use crate::ecs::{FetchError, Priority, RunLevel, System, Systemized};
use crate::services::Services;

verus! {

/// The sequence is in dispatch order: priorities never rise again once
/// they have fallen, so systems of higher priority value run first.
pub open spec fn priorities_sorted<Y: Systemized>(s: Seq<Y>) -> bool {
    forall|i: int, j: int|
        0 <= i < j < s.len() ==> (#[trigger] s[i]).spec_priority().spec_value() >= (
        #[trigger] s[j]).spec_priority().spec_value()
}

/// All systems of a sequence are well formed.
pub open spec fn all_wf<Y: Systemized>(s: Seq<Y>) -> bool {
    forall|i: int| 0 <= i < s.len() ==> (#[trigger] s[i]).wf()
}

/// One pass over the sequence dispatched each system exactly once, in
/// place: names and priorities are untouched and every dispatch counter
/// advanced by one.
pub open spec fn ran_once<Y: Systemized>(pre: Seq<Y>, post: Seq<Y>) -> bool {
    post.len() == pre.len() && forall|i: int|
        0 <= i < pre.len() ==> (#[trigger] post[i]).spec_name() == pre[i].spec_name() && post[
            i
        ].spec_priority() == pre[i].spec_priority() && post[i].spec_runs() == pre[i].spec_runs()
            + 1
}

/// The errors of a sequence of dispatch results, in dispatch order.
pub open spec fn collected_errors(results: Seq<Result<(), FetchError>>) -> Seq<FetchError>
    decreases results.len(),
{
    if results.len() == 0 {
        Seq::empty()
    } else {
        collected_errors(results.drop_last()) + (match results.last() {
            Ok(()) => Seq::<FetchError>::empty(),
            Err(e) => seq![e],
        })
    }
}

/// What one pass computes: each system of `pre` was dispatched once, in
/// list order, every dispatch related to the registry it saw and left
/// behind by [`Systemized::run_rel`], the registry threaded from
/// `pre_services` through the intermediate states to `post_services`, and
/// `errors` being exactly the failing dispatches' errors, in order.
pub open spec fn pass_rel<Y: Systemized>(
    pre: Seq<Y>,
    post: Seq<Y>,
    pre_services: Map<u64, Y::Store>,
    post_services: Map<u64, Y::Store>,
    errors: Seq<FetchError>,
) -> bool {
    post.len() == pre.len() && exists|
        ms: Seq<Map<u64, Y::Store>>,
        rs: Seq<Result<(), FetchError>>,
    |
        #![trigger ms.len(), rs.len()]
        ms.len() == pre.len() + 1 && rs.len() == pre.len() && ms[0] == pre_services && ms[
            pre.len() as int
        ] == post_services && errors == collected_errors(rs) && (forall|j: int|
            0 <= j < pre.len() ==> Y::run_rel(pre[j], #[trigger] post[j], ms[j], ms[j + 1], rs[j]))
}

/// The dispatcher: systems grouped by run level, each group held in
/// dispatch order, higher priorities first.
pub struct Scheduler<Y> {
    startup: Vec<Y>,
    bind: Vec<Y>,
    standard: Vec<Y>,
    render: Vec<Y>,
    release: Vec<Y>,
    resize: Vec<Y>,
    started: bool,
}

impl<Y: Systemized> Scheduler<Y> {
    /// The systems registered at a run level, in dispatch order.
    pub closed spec fn spec_level(&self, level: RunLevel) -> Seq<Y> {
        match level {
            RunLevel::Startup => self.startup@,
            RunLevel::Bind => self.bind@,
            RunLevel::Standard => self.standard@,
            RunLevel::Render => self.render@,
            RunLevel::Release => self.release@,
            RunLevel::Resize => self.resize@,
        }
    }

    /// Whether the startup phase has already executed.
    pub closed spec fn spec_started(&self) -> bool {
        self.started
    }

    /// Every group is well formed and held in dispatch order.
    pub open spec fn wf(&self) -> bool {
        forall|level: RunLevel|
            all_wf(#[trigger] self.spec_level(level)) && priorities_sorted(self.spec_level(level))
    }

    /// Creates a dispatcher with no systems, with the startup phase still
    /// to run.
    pub fn new() -> (r: Self)
        ensures
            r.wf(),
            !r.spec_started(),
            forall|level: RunLevel| (#[trigger] r.spec_level(level)).len() == 0,
    {
        Scheduler {
            startup: Vec::new(),
            bind: Vec::new(),
            standard: Vec::new(),
            render: Vec::new(),
            release: Vec::new(),
            resize: Vec::new(),
            started: false,
        }
    }

    /// Inserts `system` after every registered system of greater or equal
    /// priority and before every one of strictly lower priority, so that
    /// higher-priority systems dispatch first and, among equal priorities,
    /// the registration order is kept.
    fn insert_sorted(list: &mut Vec<Y>, system: Y)
        requires
            all_wf(old(list)@),
            priorities_sorted(old(list)@),
            system.wf(),
        ensures
            all_wf(final(list)@),
            priorities_sorted(final(list)@),
            exists|p: int|
                0 <= p <= old(list)@.len() && final(list)@ == old(list)@.insert(p, system) && (
                forall|j: int|
                    0 <= j < p ==> (#[trigger] old(list)@[j]).spec_priority().spec_value()
                        >= system.spec_priority().spec_value()) && (forall|j: int|
                    p <= j < old(list)@.len()
                        ==> (#[trigger] old(list)@[j]).spec_priority().spec_value()
                        < system.spec_priority().spec_value()),
    {
        let value = system.priority().value();
        let n = list.len();
        let mut i: usize = 0;
        while i < n && list[i].priority().value() >= value
            invariant
                n == list@.len(),
                0 <= i <= n,
                value == system.spec_priority().spec_value(),
                forall|j: int|
                    0 <= j < i ==> (#[trigger] list@[j]).spec_priority().spec_value() >= value,
                priorities_sorted(list@),
                all_wf(list@),
                list@ == old(list)@,
            decreases n - i,
        {
            i = i + 1;
        }
        proof {
            assert forall|j: int| i <= j < list@.len() implies (
            #[trigger] list@[j]).spec_priority().spec_value() < value by {
                assert(list@[i as int].spec_priority().spec_value() < value);
                assert(list@[i as int].spec_priority().spec_value()
                    >= list@[j].spec_priority().spec_value());
            }
        }
        let ghost p = i as int;
        list.insert(i, system);
        proof {
            assert(list@ == old(list)@.insert(p, system));
            assert forall|a: int, b: int| 0 <= a < b < list@.len() implies (
            #[trigger] list@[a]).spec_priority().spec_value() >= (
            #[trigger] list@[b]).spec_priority().spec_value() by {
                assert(list@[a] == if a < p {
                    old(list)@[a]
                } else if a == p {
                    system
                } else {
                    old(list)@[a - 1]
                });
                assert(list@[b] == if b < p {
                    old(list)@[b]
                } else if b == p {
                    system
                } else {
                    old(list)@[b - 1]
                });
            }
            assert forall|a: int| 0 <= a < list@.len() implies (#[trigger] list@[a]).wf() by {
                assert(list@[a] == if a < p {
                    old(list)@[a]
                } else if a == p {
                    system
                } else {
                    old(list)@[a - 1]
                });
            }
        }
    }

    /// Registers a system: it joins exactly the group of its run level,
    /// after every system of greater or equal priority and before every one
    /// of strictly lower priority.
    pub fn add_system(&mut self, system: System<Y>)
        requires
            old(self).wf(),
            system.data.wf(),
        ensures
            final(self).wf(),
            final(self).spec_started() == old(self).spec_started(),
            forall|l: RunLevel|
                l != system.run_level ==> #[trigger] final(self).spec_level(l) == old(
                    self,
                ).spec_level(l),
            exists|p: int|
                #![trigger old(self).spec_level(system.run_level).insert(p, system.data)]
                {
                    let pre = old(self).spec_level(system.run_level);
                    0 <= p <= pre.len() && final(self).spec_level(system.run_level) == pre.insert(
                        p,
                        system.data,
                    ) && (forall|j: int|
                        0 <= j < p ==> (#[trigger] pre[j]).spec_priority().spec_value()
                            >= system.data.spec_priority().spec_value()) && (forall|j: int|
                        p <= j < pre.len() ==> (#[trigger] pre[j]).spec_priority().spec_value()
                            < system.data.spec_priority().spec_value())
                },
    {
        proof {
            assert(all_wf(old(self).spec_level(system.run_level)));
            assert(priorities_sorted(old(self).spec_level(system.run_level)));
        }
        let System { data, run_level } = system;
        match run_level {
            RunLevel::Startup => Self::insert_sorted(&mut self.startup, data),
            RunLevel::Bind => Self::insert_sorted(&mut self.bind, data),
            RunLevel::Standard => Self::insert_sorted(&mut self.standard, data),
            RunLevel::Render => Self::insert_sorted(&mut self.render, data),
            RunLevel::Release => Self::insert_sorted(&mut self.release, data),
            RunLevel::Resize => Self::insert_sorted(&mut self.resize, data),
        }
        proof {
            assert forall|l: RunLevel|
                all_wf(#[trigger] self.spec_level(l)) && priorities_sorted(
                    self.spec_level(l),
                ) by {
                if l != run_level {
                    assert(self.spec_level(l) == old(self).spec_level(l));
                    assert(all_wf(old(self).spec_level(l)) && priorities_sorted(
                        old(self).spec_level(l),
                    ));
                }
            }
        }
    }

    /// Runs every system of `list` once, in list order, each invocation
    /// completing before the next begins.  A system whose accessors cannot
    /// be resolved is skipped; its error joins the returned list.
    fn run_list(list: &mut Vec<Y>, services: &mut Services<Y::Store>) -> (errors: Vec<FetchError>)
        requires
            all_wf(old(list)@),
            priorities_sorted(old(list)@),
            old(services).wf(),
        ensures
            final(services).wf(),
            all_wf(final(list)@),
            priorities_sorted(final(list)@),
            ran_once(old(list)@, final(list)@),
            pass_rel(old(list)@, final(list)@, old(services)@, final(services)@, errors@),
    {
        let mut errors: Vec<FetchError> = Vec::new();
        let ghost mut ms: Seq<Map<u64, Y::Store>> = seq![old(services)@];
        let ghost mut rs: Seq<Result<(), FetchError>> = seq![];
        let n = list.len();
        let mut i: usize = 0;
        while i < n
            invariant
                n == list@.len(),
                0 <= i <= n,
                services.wf(),
                all_wf(list@),
                ms.len() == i + 1,
                rs.len() == i,
                ms[0] == old(services)@,
                ms[i as int] == services@,
                errors@ == collected_errors(rs),
                forall|j: int| i <= j < n ==> #[trigger] list@[j] == old(list)@[j],
                forall|j: int|
                    0 <= j < n ==> (#[trigger] list@[j]).spec_priority() == old(
                        list,
                    )@[j].spec_priority() && list@[j].spec_name() == old(list)@[j].spec_name(),
                forall|j: int|
                    0 <= j < i ==> (#[trigger] list@[j]).spec_runs() == old(list)@[j].spec_runs()
                        + 1,
                forall|j: int|
                    0 <= j < i ==> Y::run_rel(
                        old(list)@[j],
                        #[trigger] list@[j],
                        ms[j],
                        ms[j + 1],
                        rs[j],
                    ),
            decreases n - i,
        {
            let ghost list_pre = list@;
            let mut sys = list.remove(i);
            let result = sys.run(services);
            let ghost sys_post = sys;
            list.insert(i, sys);
            if let Err(e) = result {
                errors.push(e);
            }
            proof {
                assert(list@ =~= list_pre.update(i as int, sys_post));
                assert(rs.push(result).drop_last() =~= rs);
                if result is Err {
                    assert(collected_errors(rs.push(result)) =~= collected_errors(rs).push(
                        result->Err_0,
                    ));
                } else {
                    assert(collected_errors(rs.push(result)) =~= collected_errors(rs));
                }
                rs = rs.push(result);
                ms = ms.push(services@);
                assert forall|j: int|
                    0 <= j < n implies (#[trigger] list@[j]).spec_priority() == old(
                    list,
                )@[j].spec_priority() && list@[j].spec_name() == old(list)@[j].spec_name() && (if j
                    <= i {
                    list@[j].spec_runs() == old(list)@[j].spec_runs() + 1
                } else {
                    list@[j].spec_runs() == old(list)@[j].spec_runs()
                }) by {
                    assert(list@[j] == if j == i {
                        sys_post
                    } else {
                        list_pre[j]
                    });
                }
            }
            i = i + 1;
        }
        proof {
            assert forall|a: int, b: int| 0 <= a < b < list@.len() implies (
            #[trigger] list@[a]).spec_priority().spec_value() >= (
            #[trigger] list@[b]).spec_priority().spec_value() by {
                assert(old(list)@[a].spec_priority().spec_value()
                    >= old(list)@[b].spec_priority().spec_value());
            }
            assert(ms.len() == old(list)@.len() + 1 && rs.len() == old(list)@.len());
            assert(pass_rel(old(list)@, list@, old(services)@, services@, errors@));
        }
        errors
    }

    /// Runs the startup phase: executes exactly once, at application
    /// initialization, before any other phase.
    pub fn run_startup(&mut self, services: &mut Services<Y::Store>) -> (errors: Vec<FetchError>)
        requires
            old(self).wf(),
            !old(self).spec_started(),
            old(services).wf(),
        ensures
            final(self).wf(),
            final(self).spec_started(),
            final(services).wf(),
            ran_once(
                old(self).spec_level(RunLevel::Startup),
                final(self).spec_level(RunLevel::Startup),
            ),
            pass_rel(
                old(self).spec_level(RunLevel::Startup),
                final(self).spec_level(RunLevel::Startup),
                old(services)@,
                final(services)@,
                errors@,
            ),
            forall|l: RunLevel|
                l != RunLevel::Startup ==> #[trigger] final(self).spec_level(l) == old(
                    self,
                ).spec_level(l),
    {
        proof {
            assert(all_wf(old(self).spec_level(RunLevel::Startup)) && priorities_sorted(
                old(self).spec_level(RunLevel::Startup),
            ));
        }
        self.started = true;
        let errors = Self::run_list(&mut self.startup, services);
        proof {
            self.lemma_levels_wf(*old(self));
        }
        errors
    }

    /// Runs one application cycle: the `Bind`, `Standard`, `Render` and
    /// `Release` phases, in that fixed order, after startup has run.
    pub fn run_cycle(&mut self, services: &mut Services<Y::Store>) -> (errors: Vec<FetchError>)
        requires
            old(self).wf(),
            old(self).spec_started(),
            old(services).wf(),
        ensures
            final(self).wf(),
            final(self).spec_started(),
            final(services).wf(),
            ran_once(old(self).spec_level(RunLevel::Bind), final(self).spec_level(RunLevel::Bind)),
            ran_once(
                old(self).spec_level(RunLevel::Standard),
                final(self).spec_level(RunLevel::Standard),
            ),
            ran_once(
                old(self).spec_level(RunLevel::Render),
                final(self).spec_level(RunLevel::Render),
            ),
            ran_once(
                old(self).spec_level(RunLevel::Release),
                final(self).spec_level(RunLevel::Release),
            ),
            final(self).spec_level(RunLevel::Startup) == old(self).spec_level(RunLevel::Startup),
            final(self).spec_level(RunLevel::Resize) == old(self).spec_level(RunLevel::Resize),
            exists|
                m1: Map<u64, Y::Store>,
                m2: Map<u64, Y::Store>,
                m3: Map<u64, Y::Store>,
                e1: Seq<FetchError>,
                e2: Seq<FetchError>,
                e3: Seq<FetchError>,
                e4: Seq<FetchError>,
            |
                #![trigger pass_rel(old(self).spec_level(RunLevel::Bind), final(self).spec_level(RunLevel::Bind), old(services)@, m1, e1), pass_rel(old(self).spec_level(RunLevel::Standard), final(self).spec_level(RunLevel::Standard), m1, m2, e2), pass_rel(old(self).spec_level(RunLevel::Render), final(self).spec_level(RunLevel::Render), m2, m3, e3), pass_rel(old(self).spec_level(RunLevel::Release), final(self).spec_level(RunLevel::Release), m3, final(services)@, e4)]
                pass_rel(
                    old(self).spec_level(RunLevel::Bind),
                    final(self).spec_level(RunLevel::Bind),
                    old(services)@,
                    m1,
                    e1,
                ) && pass_rel(
                    old(self).spec_level(RunLevel::Standard),
                    final(self).spec_level(RunLevel::Standard),
                    m1,
                    m2,
                    e2,
                ) && pass_rel(
                    old(self).spec_level(RunLevel::Render),
                    final(self).spec_level(RunLevel::Render),
                    m2,
                    m3,
                    e3,
                ) && pass_rel(
                    old(self).spec_level(RunLevel::Release),
                    final(self).spec_level(RunLevel::Release),
                    m3,
                    final(services)@,
                    e4,
                ) && errors@ == e1 + e2 + e3 + e4,
    {
        proof {
            assert(all_wf(old(self).spec_level(RunLevel::Bind)) && priorities_sorted(
                old(self).spec_level(RunLevel::Bind),
            ));
            assert(all_wf(old(self).spec_level(RunLevel::Standard)) && priorities_sorted(
                old(self).spec_level(RunLevel::Standard),
            ));
            assert(all_wf(old(self).spec_level(RunLevel::Render)) && priorities_sorted(
                old(self).spec_level(RunLevel::Render),
            ));
            assert(all_wf(old(self).spec_level(RunLevel::Release)) && priorities_sorted(
                old(self).spec_level(RunLevel::Release),
            ));
        }
        let mut errors = Self::run_list(&mut self.bind, services);
        let ghost m1 = services@;
        let ghost e1 = errors@;
        let mut e = Self::run_list(&mut self.standard, services);
        let ghost m2 = services@;
        let ghost e2 = e@;
        errors.append(&mut e);
        let mut e = Self::run_list(&mut self.render, services);
        let ghost m3 = services@;
        let ghost e3 = e@;
        errors.append(&mut e);
        let mut e = Self::run_list(&mut self.release, services);
        let ghost e4 = e@;
        errors.append(&mut e);
        proof {
            self.lemma_levels_wf(*old(self));
            assert(errors@ =~= e1 + e2 + e3 + e4);
            assert(pass_rel(
                old(self).spec_level(RunLevel::Bind),
                self.spec_level(RunLevel::Bind),
                old(services)@,
                m1,
                e1,
            ) && pass_rel(
                old(self).spec_level(RunLevel::Standard),
                self.spec_level(RunLevel::Standard),
                m1,
                m2,
                e2,
            ) && pass_rel(
                old(self).spec_level(RunLevel::Render),
                self.spec_level(RunLevel::Render),
                m2,
                m3,
                e3,
            ) && pass_rel(
                old(self).spec_level(RunLevel::Release),
                self.spec_level(RunLevel::Release),
                m3,
                services@,
                e4,
            ));
        }
        errors
    }

    /// Runs the resize phase, in response to an external resize event,
    /// independent of the per-cycle sequence.
    pub fn run_resize(&mut self, services: &mut Services<Y::Store>) -> (errors: Vec<FetchError>)
        requires
            old(self).wf(),
            old(self).spec_started(),
            old(services).wf(),
        ensures
            final(self).wf(),
            final(self).spec_started(),
            final(services).wf(),
            ran_once(
                old(self).spec_level(RunLevel::Resize),
                final(self).spec_level(RunLevel::Resize),
            ),
            pass_rel(
                old(self).spec_level(RunLevel::Resize),
                final(self).spec_level(RunLevel::Resize),
                old(services)@,
                final(services)@,
                errors@,
            ),
            forall|l: RunLevel|
                l != RunLevel::Resize ==> #[trigger] final(self).spec_level(l) == old(
                    self,
                ).spec_level(l),
    {
        proof {
            assert(all_wf(old(self).spec_level(RunLevel::Resize)) && priorities_sorted(
                old(self).spec_level(RunLevel::Resize),
            ));
        }
        let errors = Self::run_list(&mut self.resize, services);
        proof {
            self.lemma_levels_wf(*old(self));
        }
        errors
    }

    /// Re-establishes the dispatcher invariant after phase lists were
    /// replaced by lists of equal shape.
    proof fn lemma_levels_wf(&self, pre: Self)
        requires
            pre.wf(),
            forall|l: RunLevel|
                all_wf(#[trigger] self.spec_level(l)) || self.spec_level(l) == pre.spec_level(l),
            forall|l: RunLevel|
                priorities_sorted(#[trigger] self.spec_level(l)) || self.spec_level(l)
                    == pre.spec_level(l),
        ensures
            self.wf(),
    {
        assert forall|l: RunLevel|
            all_wf(#[trigger] self.spec_level(l)) && priorities_sorted(self.spec_level(l)) by {
            assert(all_wf(pre.spec_level(l)) && priorities_sorted(pre.spec_level(l)));
        }
    }

    /// The names of the systems registered at `level`, in dispatch order.
    pub fn names(&self, level: RunLevel) -> (r: Vec<&'static str>)
        ensures
            r@.len() == self.spec_level(level).len(),
            forall|i: int|
                0 <= i < r@.len() ==> (#[trigger] r@[i]).spec_bytes() == self.spec_level(
                    level,
                )[i].spec_name(),
    {
        let list = match level {
            RunLevel::Startup => &self.startup,
            RunLevel::Bind => &self.bind,
            RunLevel::Standard => &self.standard,
            RunLevel::Render => &self.render,
            RunLevel::Release => &self.release,
            RunLevel::Resize => &self.resize,
        };
        let n = list.len();
        let mut r: Vec<&'static str> = Vec::new();
        let mut i: usize = 0;
        while i < n
            invariant
                n == list@.len(),
                list@ == self.spec_level(level),
                0 <= i <= n,
                r@.len() == i,
                forall|j: int|
                    0 <= j < i ==> (#[trigger] r@[j]).spec_bytes() == self.spec_level(
                        level,
                    )[j].spec_name(),
            decreases n - i,
        {
            r.push(list[i].name());
            i = i + 1;
        }
        r
    }

    /// Within one run level of a well-formed dispatcher, dispatch order is
    /// non-decreasing in priority: a higher-priority system never runs
    /// after a lower-priority one.  Among systems of equal priority the
    /// registration order is preserved, which [`Scheduler::add_system`]
    /// guarantees by inserting each system after every one of greater or
    /// equal priority.
    pub proof fn lemma_dispatch_priority_sorted(&self, level: RunLevel)
        requires
            self.wf(),
        ensures
            priorities_sorted(self.spec_level(level)),
    {
        assert(all_wf(self.spec_level(level)) && priorities_sorted(self.spec_level(level)));
    }

    /// How many systems are registered at `level`.
    pub fn len(&self, level: RunLevel) -> (r: usize)
        ensures
            r == self.spec_level(level).len(),
    {
        let list = match level {
            RunLevel::Startup => &self.startup,
            RunLevel::Bind => &self.bind,
            RunLevel::Standard => &self.standard,
            RunLevel::Render => &self.render,
            RunLevel::Release => &self.release,
            RunLevel::Resize => &self.resize,
        };
        list.len()
    }
}

} // verus!
