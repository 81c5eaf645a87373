//! The application: plugin lifecycle and the external tick.
//!
//! An `App` owns the state, the stage registry and the scheduler runner,
//! plus the registered plugins.  It is a two-state machine: it starts in
//! `WaitingForPlugins` and, once every plugin reports itself initialized,
//! invokes every plugin's `post_initialization` hook exactly once, in
//! registration order, and moves to `Running` — a terminal state.  Each
//! call of `update` is one external tick: while waiting it only polls the
//! plugins and touches nothing else; once running it hands the state to
//! the scheduler runner.

use crate::message::{MessageId, MessageStorage, Messages, QueueModel, empty_queue, sent_queue};
use crate::param::Param;
use crate::sched::{RunError, Runner, Scheduler, missing_tag, runner_trace_ok};
use crate::stage::{Stage, Stages, SystemEntry, SystemKind};
use crate::state::{State, StateModel, with_now};
use crate::store::Store;
use crate::system::System;
use crate::tags::StageTag;
use vstd::prelude::*;

verus! {

/// The two lifecycle states of an `App`.
#[derive(Clone, Copy, Debug, PartialEq, Eq, Structural)]
pub enum AppPhase {
    /// Plugins are still initializing; no scheduler runs yet.
    WaitingForPlugins,
    /// All plugins are initialized; every tick runs the schedulers.
    Running,
}

/// What one `update` call did.
#[derive(Clone, Copy, Debug, PartialEq, Eq, Structural)]
pub enum UpdateOutcome {
    /// Some plugin was not initialized yet: nothing ran, nothing changed.
    WaitingForPlugins,
    /// All plugins had become ready: their `post_initialization` hooks ran
    /// once each, in registration order, and then the schedulers ran for
    /// the first time.
    Started,
    /// The app was already running: the schedulers ran.
    Ran,
}

/// What an app run is asked to return to its embedder.
#[derive(Clone, Copy, Debug, PartialEq, Eq, Hash, Structural)]
pub enum AppReturnValue {
    Value(u32),
}

/// A resource value conventionally inserted to ask the outer run loop to
/// stop with the carried return value.
#[derive(Clone, Copy, Debug, PartialEq, Eq, Structural)]
pub struct ApplicationExit {
    pub value: AppReturnValue,
}

/// Everything of an `App` that plugins may register against: the state,
/// the stage registry and the scheduler runner.
///
/// The lifecycle fields of the `App` — its phase and its plugin list — are
/// deliberately not here: a plugin hook can register stages, systems,
/// schedulers and resources, but cannot move the lifecycle.
pub struct AppCore<R, L, M, S> {
    pub state: State<R, L, M>,
    pub stages: Stages<S>,
    pub runner: Runner,
}

impl<R, L, M, S> AppCore<R, L, M, S> {
    /// Creates an empty core: empty state, no stages, no schedulers.
    pub fn new() -> (c: Self)
        ensures
            c.state@.resources == Map::<u64, R>::empty(),
            c.state@.local_resources == Map::<u64, L>::empty(),
            c.state@.messages == Map::<u64, QueueModel<M>>::empty(),
            c.state@.now_ms == 0,
            c.stages@ == Map::<u64, Stage<S>>::empty(),
            c.runner.schedulers@ == Seq::<Scheduler>::empty(),
    {
        AppCore { state: State::new(), stages: Stages::new(), runner: Runner::new() }
    }
}

/// A registration-time unit with three hooks.
///
/// `build` runs synchronously the moment the plugin is added, before the
/// app starts ticking, and is where stages, systems, schedulers and
/// initial resources are registered.  `is_initialized` is polled every
/// tick while the app waits; a plugin doing asynchronous setup reports
/// `false` until it is done (the default is `true`).  Once every plugin
/// reports ready, `post_initialization` runs exactly once per plugin, in
/// registration order.  Plugins may not mutate themselves during any hook
/// — every hook takes the plugin by shared reference — only the app core.
pub trait Plugin<R, L, M, S> {
    /// Registers the plugin's stages, systems, schedulers and resources.
    fn build(&self, app: &mut AppCore<R, L, M, S>);

    /// Whether the plugin's setup is complete; polled once per waiting
    /// tick.
    fn is_initialized(&self, app: &AppCore<R, L, M, S>) -> bool {
        true
    }

    /// Runs once, after every plugin has reported itself initialized and
    /// before the first scheduler run.
    fn post_initialization(&self, app: &mut AppCore<R, L, M, S>) {
    }
}

/// One `update` call's result, as the scheduler runner saw it: the
/// outcome stripped to success or the configuration error.
pub open spec fn runner_result(r: Result<UpdateOutcome, RunError>) -> Result<(), RunError> {
    match r {
        Ok(_) => Ok(()),
        Err(e) => Err(e),
    }
}

/// The top-level state machine: one `State`, the stage registry, the
/// runner and the registered plugins.
pub struct App<R, L, M, S, P> {
    pub core: AppCore<R, L, M, S>,
    pub plugins: Vec<P>,
    pub phase: AppPhase,
}

impl<R, L, M, S, P> Default for App<R, L, M, S, P> {
    /// The same as `App::new`: nothing registered, waiting for plugins.
    fn default() -> (a: Self)
        ensures
            a.phase is WaitingForPlugins,
            a.plugins@ == Seq::<P>::empty(),
    {
        App::new()
    }
}

impl<R, L, M, S, P> App<R, L, M, S, P> {
    /// Creates an app with nothing registered, waiting for plugins.
    pub fn new() -> (a: Self)
        ensures
            a.phase is WaitingForPlugins,
            a.plugins@ == Seq::<P>::empty(),
            a.core.state@.resources == Map::<u64, R>::empty(),
            a.core.state@.local_resources == Map::<u64, L>::empty(),
            a.core.state@.messages == Map::<u64, QueueModel<M>>::empty(),
            a.core.state@.now_ms == 0,
            a.core.stages@ == Map::<u64, Stage<S>>::empty(),
            a.core.runner.schedulers@ == Seq::<Scheduler>::empty(),
    {
        App { core: AppCore::new(), plugins: Vec::new(), phase: AppPhase::WaitingForPlugins }
    }

    /// Creates an app with nothing registered; same as `new`.
    pub fn empty() -> (a: Self)
        ensures
            a.phase is WaitingForPlugins,
            a.plugins@ == Seq::<P>::empty(),
            a.core.state@.resources == Map::<u64, R>::empty(),
            a.core.state@.local_resources == Map::<u64, L>::empty(),
            a.core.state@.messages == Map::<u64, QueueModel<M>>::empty(),
            a.core.state@.now_ms == 0,
            a.core.stages@ == Map::<u64, Stage<S>>::empty(),
            a.core.runner.schedulers@ == Seq::<Scheduler>::empty(),
    {
        Self::new()
    }

    /// Registers a plugin: its `build` hook runs at once, against the app
    /// core, then the plugin joins the list that `update` polls.
    pub fn add_plugins(&mut self, plugin: P) where P: Plugin<R, L, M, S>
        ensures
            final(self).plugins@ == old(self).plugins@.push(plugin),
            final(self).phase == old(self).phase,
    {
        plugin.build(&mut self.core);
        self.plugins.push(plugin);
    }

    /// One external tick, at monotonic time `now_ms`.
    ///
    /// While any plugin reports not-initialized, nothing happens at all:
    /// no hook other than `is_initialized` is called, no scheduler runs,
    /// and the app — state included — is exactly what it was.  On the
    /// first tick where every plugin reports ready, every plugin's
    /// `post_initialization` runs once, in registration order, the phase
    /// becomes `Running` (and never leaves it), and only then do the
    /// schedulers run.  On every later tick the schedulers run directly.
    /// A missing stage is reported as an error, with the tick aborted at
    /// the offending scheduler.
    pub fn update(&mut self, now_ms: u64) -> (r: Result<UpdateOutcome, RunError>)
        where
            S: System<R, L, M>,
            P: Plugin<R, L, M, S>,
        ensures
            final(self).plugins@ == old(self).plugins@,
            final(self).phase is Running <==> !(r matches Ok(UpdateOutcome::WaitingForPlugins)),
            r matches Ok(UpdateOutcome::WaitingForPlugins) ==> old(self).phase
                is WaitingForPlugins && *final(self) == *old(self),
            r matches Ok(UpdateOutcome::Started) ==> old(self).phase is WaitingForPlugins,
            r matches Ok(UpdateOutcome::Ran) ==> old(self).phase is Running,
            old(self).phase is Running ==> final(self).core.stages == old(self).core.stages,
            r matches Ok(UpdateOutcome::Started) ==> (exists|
                sched0: Seq<Scheduler>,
                s0: StateModel<R, L, M>,
                mids: Seq<StateModel<R, L, M>>,
            |
                #[trigger] runner_trace_ok(
                    sched0,
                    final(self).core.runner.schedulers@,
                    mids,
                    final(self).core.stages@,
                    with_now(s0, now_ms),
                    final(self).core.state@,
                    runner_result(r),
                )),
            old(self).phase is Running ==> (exists|mids: Seq<StateModel<R, L, M>>|
                #[trigger] runner_trace_ok(
                    old(self).core.runner.schedulers@,
                    final(self).core.runner.schedulers@,
                    mids,
                    old(self).core.stages@,
                    with_now(old(self).core.state@, now_ms),
                    final(self).core.state@,
                    runner_result(r),
                )),
            r is Err ==> !final(self).core.stages@.contains_key(missing_tag(r->Err_0)),
    {
        match self.phase {
            AppPhase::WaitingForPlugins => {
                let mut all_ready = true;
                let n = self.plugins.len();
                let mut i: usize = 0;
                while i < n
                    invariant
                        n == self.plugins@.len(),
                        i <= n,
                        *self == *old(self),
                    decreases n - i,
                {
                    if !self.plugins[i].is_initialized(&self.core) {
                        all_ready = false;
                    }
                    i += 1;
                }
                if !all_ready {
                    return Ok(UpdateOutcome::WaitingForPlugins);
                }
                let mut i: usize = 0;
                while i < n
                    invariant
                        n == self.plugins@.len(),
                        i <= n,
                        self.plugins@ == old(self).plugins@,
                        self.phase == old(self).phase,
                    decreases n - i,
                {
                    self.plugins[i].post_initialization(&mut self.core);
                    i += 1;
                }
                self.phase = AppPhase::Running;
                let ghost sched0 = self.core.runner.schedulers@;
                let ghost s0 = self.core.state@;
                self.core.state.set_now(now_ms);
                let res = self.core.runner.run_schedulers(
                    &self.core.stages,
                    &mut self.core.state,
                );
                proof {
                    let mids = choose|mids: Seq<StateModel<R, L, M>>|
                        runner_trace_ok(
                            sched0,
                            self.core.runner.schedulers@,
                            mids,
                            self.core.stages@,
                            with_now(s0, now_ms),
                            self.core.state@,
                            res,
                        );
                    assert(runner_trace_ok(
                        sched0,
                        self.core.runner.schedulers@,
                        mids,
                        self.core.stages@,
                        with_now(s0, now_ms),
                        self.core.state@,
                        runner_result(match res {
                            Ok(()) => Ok::<UpdateOutcome, RunError>(UpdateOutcome::Started),
                            Err(e) => Err::<UpdateOutcome, RunError>(e),
                        }),
                    ));
                }
                match res {
                    Ok(()) => Ok(UpdateOutcome::Started),
                    Err(e) => Err(e),
                }
            },
            AppPhase::Running => {
                self.core.state.set_now(now_ms);
                let res = self.core.runner.run_schedulers(
                    &self.core.stages,
                    &mut self.core.state,
                );
                proof {
                    let mids = choose|mids: Seq<StateModel<R, L, M>>|
                        runner_trace_ok(
                            old(self).core.runner.schedulers@,
                            self.core.runner.schedulers@,
                            mids,
                            self.core.stages@,
                            with_now(old(self).core.state@, now_ms),
                            self.core.state@,
                            res,
                        );
                    assert(runner_trace_ok(
                        old(self).core.runner.schedulers@,
                        self.core.runner.schedulers@,
                        mids,
                        self.core.stages@,
                        with_now(old(self).core.state@, now_ms),
                        self.core.state@,
                        runner_result(match res {
                            Ok(()) => Ok::<UpdateOutcome, RunError>(UpdateOutcome::Ran),
                            Err(e) => Err::<UpdateOutcome, RunError>(e),
                        }),
                    ));
                }
                match res {
                    Ok(()) => Ok(UpdateOutcome::Ran),
                    Err(e) => Err(e),
                }
            },
        }
    }

    /// Registers the stage identified by the tag type `T`, with no systems.
    pub fn add_stage<T: StageTag>(&mut self)
        ensures
            final(self).core.stages@ == old(self).core.stages@.insert(
                T::spec_id(),
                final(self).core.stages@[T::spec_id()],
            ),
            final(self).core.stages@[T::spec_id()].systems@ == Seq::<SystemEntry<S>>::empty(),
            final(self).core.state == old(self).core.state,
            final(self).core.runner == old(self).core.runner,
            final(self).plugins == old(self).plugins,
            final(self).phase == old(self).phase,
    {
        self.core.stages.add(T::stage_id(), Stage::new());
    }

    /// Registers the stage keyed by the bare token `tag`, with no systems.
    pub fn add_stage_by_id(&mut self, tag: u64)
        ensures
            final(self).core.stages@ == old(self).core.stages@.insert(
                tag,
                final(self).core.stages@[tag],
            ),
            final(self).core.stages@[tag].systems@ == Seq::<SystemEntry<S>>::empty(),
            final(self).core.state == old(self).core.state,
            final(self).core.runner == old(self).core.runner,
            final(self).plugins == old(self).plugins,
            final(self).phase == old(self).phase,
    {
        self.core.stages.add(tag, Stage::new());
    }

    /// Appends a system, with its declared parameter list, to the stage
    /// identified by `T`.  The stage must have been registered: adding a
    /// system against an unknown stage tag is a configuration error.
    pub fn add_system<T: StageTag>(&mut self, params: Vec<Param>, system: S)
        requires
            old(self).core.stages@.contains_key(T::spec_id()),
        ensures
            final(self).core.stages@ == old(self).core.stages@.insert(
                T::spec_id(),
                final(self).core.stages@[T::spec_id()],
            ),
            final(self).core.stages@[T::spec_id()].systems@ == old(
                self,
            ).core.stages@[T::spec_id()].systems@.push(
                (SystemEntry { params, kind: SystemKind::User(system) }),
            ),
            final(self).core.state == old(self).core.state,
            final(self).core.runner == old(self).core.runner,
            final(self).plugins == old(self).plugins,
            final(self).phase == old(self).phase,
    {
        self.core.stages.add_system(T::stage_id(), params, system);
    }

    /// Appends a scheduler; schedulers run in registration order.
    pub fn add_scheduler(&mut self, scheduler: Scheduler)
        ensures
            final(self).core.runner.schedulers@ == old(self).core.runner.schedulers@.push(
                scheduler,
            ),
            final(self).core.state == old(self).core.state,
            final(self).core.stages == old(self).core.stages,
            final(self).plugins == old(self).plugins,
            final(self).phase == old(self).phase,
    {
        self.core.runner.add_scheduler(scheduler);
    }

    /// Stores a resource under `key`, replacing any previous value.
    pub fn insert_resource(&mut self, key: u64, value: R)
        ensures
            final(self).core.state@ == (StateModel {
                resources: old(self).core.state@.resources.insert(key, value),
                ..old(self).core.state@
            }),
            final(self).core.stages == old(self).core.stages,
            final(self).core.runner == old(self).core.runner,
            final(self).plugins == old(self).plugins,
            final(self).phase == old(self).phase,
    {
        self.core.state.insert_resource(key, value);
    }

    /// Stores a local resource under `key`, replacing any previous value.
    pub fn insert_local_resource(&mut self, key: u64, value: L)
        ensures
            final(self).core.state@ == (StateModel {
                local_resources: old(self).core.state@.local_resources.insert(key, value),
                ..old(self).core.state@
            }),
            final(self).core.stages == old(self).core.stages,
            final(self).core.runner == old(self).core.runner,
            final(self).plugins == old(self).plugins,
            final(self).phase == old(self).phase,
    {
        self.core.state.insert_local_resource(key, value);
    }

    /// Removes and returns the resource under `key`; the caller must know
    /// it is present (the mandatory-dependency contract).
    pub fn resource_take(&mut self, key: u64) -> (v: R)
        requires
            old(self).core.state@.resources.contains_key(key),
        ensures
            v == old(self).core.state@.resources[key],
            final(self).core.state@ == (StateModel {
                resources: old(self).core.state@.resources.remove(key),
                ..old(self).core.state@
            }),
            final(self).core.stages == old(self).core.stages,
            final(self).core.runner == old(self).core.runner,
            final(self).plugins == old(self).plugins,
            final(self).phase == old(self).phase,
    {
        match self.core.state.remove_resource(key) {
            Some(v) => v,
            None => unreached(),
        }
    }

    /// Exclusive access to the resource under `key`; the caller must know
    /// it is present (the mandatory-dependency contract).
    pub fn resource_mut(&mut self, key: u64) -> (v: &mut R)
        requires
            old(self).core.state@.resources.contains_key(key),
        ensures
            *v == old(self).core.state@.resources[key],
            final(self).core.state@ == (StateModel {
                resources: old(self).core.state@.resources.insert(key, *final(v)),
                ..old(self).core.state@
            }),
            final(self).core.stages == old(self).core.stages,
            final(self).core.runner == old(self).core.runner,
            final(self).plugins == old(self).plugins,
            final(self).phase == old(self).phase,
    {
        self.core.state.resource_mut(key)
    }

    /// Exclusive access to the resource under `key`, if present.
    pub fn get_resource_mut(&mut self, key: u64) -> (r: Option<&mut R>)
        ensures
            match r {
                Some(v) => {
                    &&& old(self).core.state@.resources.contains_key(key)
                    &&& *v == old(self).core.state@.resources[key]
                    &&& final(self).core.state@.resources
                        == old(self).core.state@.resources.insert(key, *final(v))
                },
                None => {
                    &&& !old(self).core.state@.resources.contains_key(key)
                    &&& final(self).core.state@.resources == old(self).core.state@.resources
                },
            },
            final(self).core.state@.local_resources == old(self).core.state@.local_resources,
            final(self).core.state@.messages == old(self).core.state@.messages,
            final(self).core.state@.now_ms == old(self).core.state@.now_ms,
            final(self).core.stages == old(self).core.stages,
            final(self).core.runner == old(self).core.runner,
            final(self).plugins == old(self).plugins,
            final(self).phase == old(self).phase,
    {
        self.core.state.resources.get_mut(key)
    }

    /// The resource under `key`, if present.
    pub fn get_resource_ref(&self, key: u64) -> (r: Option<&R>)
        ensures
            match r {
                Some(v) => self.core.state@.resources.contains_key(key) && *v
                    == self.core.state@.resources[key],
                None => !self.core.state@.resources.contains_key(key),
            },
    {
        self.core.state.get_resource(key)
    }

    /// The resource under `key`; the caller must know it is present.
    pub fn resource(&self, key: u64) -> (v: &R)
        requires
            self.core.state@.resources.contains_key(key),
        ensures
            *v == self.core.state@.resources[key],
    {
        self.core.state.resource(key)
    }

    /// Whether a resource is stored under `key`.
    pub fn has_resource(&self, key: u64) -> (b: bool)
        ensures
            b == self.core.state@.resources.contains_key(key),
    {
        self.core.state.has_resource(key)
    }

    /// Registers the message type `key` with a fresh, empty queue.
    pub fn create_message_type(&mut self, key: u64)
        ensures
            final(self).core.state@ == (StateModel {
                messages: old(self).core.state@.messages.insert(key, empty_queue::<M>()),
                ..old(self).core.state@
            }),
            final(self).core.stages == old(self).core.stages,
            final(self).core.runner == old(self).core.runner,
            final(self).plugins == old(self).plugins,
            final(self).phase == old(self).phase,
    {
        self.core.state.create_message_type(key);
    }

    /// The queue of the message type `key`, if it is registered.
    pub fn get_messages(&self, key: u64) -> (r: Option<&Messages<M>>)
        ensures
            match r {
                Some(q) => self.core.state@.messages.contains_key(key) && q@
                    == self.core.state@.messages[key],
                None => !self.core.state@.messages.contains_key(key),
            },
    {
        self.core.state.get_messages(key)
    }

    /// Sends a message of the registered type `key`; identifiers count up
    /// from zero per type, in send order.
    pub fn send(&mut self, key: u64, message: M) -> (id: MessageId)
        requires
            old(self).core.state@.messages.contains_key(key),
            old(self).core.state@.messages[key].next_id < u64::MAX,
        ensures
            final(self).core.state@ == (StateModel {
                messages: old(self).core.state@.messages.insert(
                    key,
                    sent_queue(old(self).core.state@.messages[key], message),
                ),
                ..old(self).core.state@
            }),
            id == old(self).core.state@.messages[key].next_id,
            final(self).core.stages == old(self).core.stages,
            final(self).core.runner == old(self).core.runner,
            final(self).plugins == old(self).plugins,
            final(self).phase == old(self).phase,
    {
        self.core.state.send(key, message)
    }

    /// The messages of type `key` sent since the last swap, in send order.
    /// The type must be registered.
    pub fn iter_current(&self, key: u64) -> (r: &Vec<M>)
        requires
            self.core.state@.messages.contains_key(key),
        ensures
            r@ == self.core.state@.messages[key].current,
    {
        match self.core.state.get_messages(key) {
            Some(q) => q.iter_current(),
            None => unreached(),
        }
    }

    /// The complete generation of type `key` frozen by the last swap, in
    /// send order.  The type must be registered.
    pub fn iter_previous(&self, key: u64) -> (r: &Vec<M>)
        requires
            self.core.state@.messages.contains_key(key),
        ensures
            r@ == self.core.state@.messages[key].previous,
    {
        match self.core.state.get_messages(key) {
            Some(q) => q.iter_previous(),
            None => unreached(),
        }
    }

    /// Shared access to the resource storage.
    pub fn resources(&self) -> (r: &Store<R>)
        ensures
            r == &self.core.state.resources,
    {
        &self.core.state.resources
    }

    /// Shared access to the local-resource storage.
    pub fn local_resources(&self) -> (r: &Store<L>)
        ensures
            r == &self.core.state.local_resources,
    {
        &self.core.state.local_resources
    }

    /// Exclusive access to the resource storage.
    pub fn resources_mut(&mut self) -> (r: &mut Store<R>)
        ensures
            *r == old(self).core.state.resources,
            final(self).core.state.resources == *final(r),
            final(self).core.state.local_resources == old(self).core.state.local_resources,
            final(self).core.state.messages == old(self).core.state.messages,
            final(self).core.state.now_ms == old(self).core.state.now_ms,
            final(self).core.stages == old(self).core.stages,
            final(self).core.runner == old(self).core.runner,
            final(self).plugins == old(self).plugins,
            final(self).phase == old(self).phase,
    {
        &mut self.core.state.resources
    }

    /// Exclusive access to the local-resource storage.
    pub fn local_resources_mut(&mut self) -> (r: &mut Store<L>)
        ensures
            *r == old(self).core.state.local_resources,
            final(self).core.state.local_resources == *final(r),
            final(self).core.state.resources == old(self).core.state.resources,
            final(self).core.state.messages == old(self).core.state.messages,
            final(self).core.state.now_ms == old(self).core.state.now_ms,
            final(self).core.stages == old(self).core.stages,
            final(self).core.runner == old(self).core.runner,
            final(self).plugins == old(self).plugins,
            final(self).phase == old(self).phase,
    {
        &mut self.core.state.local_resources
    }

    /// Shared access to the message storage.
    pub fn messages(&self) -> (r: &MessageStorage<M>)
        ensures
            r == &self.core.state.messages,
    {
        &self.core.state.messages
    }

    /// Exclusive access to the message storage.
    pub fn messages_mut(&mut self) -> (r: &mut MessageStorage<M>)
        ensures
            *r == old(self).core.state.messages,
            final(self).core.state.messages == *final(r),
            final(self).core.state.resources == old(self).core.state.resources,
            final(self).core.state.local_resources == old(self).core.state.local_resources,
            final(self).core.state.now_ms == old(self).core.state.now_ms,
            final(self).core.stages == old(self).core.stages,
            final(self).core.runner == old(self).core.runner,
            final(self).plugins == old(self).plugins,
            final(self).phase == old(self).phase,
    {
        &mut self.core.state.messages
    }
}

} // verus!
