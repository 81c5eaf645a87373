//! Stages: named, ordered batches of systems.
//!
//! A stage executes its systems strictly in registration order, one at a
//! time, each with exclusive access to the whole state for the duration of
//! its own parameter resolution and call.  `Stages` is the registry of all
//! stages, keyed by the stage tag's token.

use crate::message::swapped_queue;
use crate::param::{Decision, MsgAll, Param, decide, decision_for};
use crate::state::{State, StateModel};
use crate::store::Store;
use crate::system::System;
use vstd::prelude::*;

verus! {

/// What one slot in a stage executes when its turn comes.
pub enum SystemKind<S> {
    /// The runtime's own tick-boundary system: swaps every registered
    /// message queue's generations.  Scheduled like any other system.
    SwapMessages,
    /// A system supplied by the embedding program.
    User(S),
}

/// One slot of a stage: the declared parameter list and the callable.
pub struct SystemEntry<S> {
    pub params: Vec<Param>,
    pub kind: SystemKind<S>,
}

/// The model of a state after the tick-boundary swap ran over it.
pub open spec fn swap_all_model<R, L, M>(s: StateModel<R, L, M>) -> StateModel<R, L, M> {
    StateModel { messages: s.messages.map_values(|q| swapped_queue(q)), ..s }
}

/// One step of a stage run: relates the state before and after slot `e`
/// took its turn, given the decision `d` reached for it.
///
/// A skipped slot leaves the state as it was.  The swap system's effect is
/// pinned exactly; of a user system's effect nothing is promised, so any
/// post-state is admissible for it.
pub open spec fn slot_step<R, L, M, S>(
    e: SystemEntry<S>,
    d: Decision,
    pre: StateModel<R, L, M>,
    post: StateModel<R, L, M>,
) -> bool {
    &&& d == decision_for(e.params@, pre)
    &&& (d != Decision::Ran ==> post == pre)
    &&& (d == Decision::Ran && (e.kind is SwapMessages) ==> post == swap_all_model(pre))
}

/// A full stage run: `ds` records one decision per slot, in order, and `tr`
/// is the chain of states the slots saw, beginning at `pre` and ending at
/// `post`.
pub open spec fn run_trace_ok<R, L, M, S>(
    systems: Seq<SystemEntry<S>>,
    ds: Seq<Decision>,
    tr: Seq<StateModel<R, L, M>>,
    pre: StateModel<R, L, M>,
    post: StateModel<R, L, M>,
) -> bool {
    &&& ds.len() == systems.len()
    &&& tr.len() == systems.len() + 1
    &&& tr[0] == pre
    &&& tr[systems.len() as int] == post
    &&& forall|i: int| 0 <= i < systems.len() ==> slot_step(
        #[trigger] systems[i],
        ds[i],
        tr[i],
        tr[i + 1],
    )
}

/// There is some admissible run of `systems` from `pre` to `post`.
pub open spec fn stage_steps<R, L, M, S>(
    systems: Seq<SystemEntry<S>>,
    pre: StateModel<R, L, M>,
    post: StateModel<R, L, M>,
) -> bool {
    exists|ds: Seq<Decision>, tr: Seq<StateModel<R, L, M>>| run_trace_ok(
        systems,
        ds,
        tr,
        pre,
        post,
    )
}

/// A system that requires an absent dependency never executes and leaves
/// the state exactly as it was: in any admissible stage run, a slot whose
/// parameter list names a resource, local resource or message type that
/// the state of its moment does not hold is skipped, for as long as that
/// remains so.
pub proof fn law_absent_dependency_never_runs<R, L, M, S>(
    systems: Seq<SystemEntry<S>>,
    ds: Seq<Decision>,
    tr: Seq<StateModel<R, L, M>>,
    pre: StateModel<R, L, M>,
    post: StateModel<R, L, M>,
    i: int,
    j: int,
)
    requires
        run_trace_ok(systems, ds, tr, pre, post),
        0 <= i < systems.len(),
        0 <= j < systems[i].params@.len(),
        !crate::param::param_resolvable(systems[i].params@[j], tr[i]),
    ensures
        ds[i] == Decision::SkippedMissing,
        tr[i + 1] == tr[i],
{
    crate::param::law_absent_dependency_skips(systems[i].params@, tr[i], j);
}

/// A run of a stage with no systems leaves the state as it was.
pub proof fn lemma_stage_steps_empty<R, L, M, S>(
    systems: Seq<SystemEntry<S>>,
    pre: StateModel<R, L, M>,
    post: StateModel<R, L, M>,
)
    requires
        stage_steps(systems, pre, post),
        systems.len() == 0,
    ensures
        post == pre,
{
    let (ds, tr) = choose|ds: Seq<Decision>, tr: Seq<StateModel<R, L, M>>| run_trace_ok(
        systems,
        ds,
        tr,
        pre,
        post,
    );
    assert(tr[0] == pre && tr[0] == post);
}

/// A run of a stage holding exactly the tick-boundary swap system swaps
/// every registered queue exactly once and touches nothing else: its one
/// parameter always resolves and cannot alias, so the slot always runs,
/// and its effect is pinned.
pub proof fn lemma_stage_steps_swap_only<R, L, M, S>(
    systems: Seq<SystemEntry<S>>,
    pre: StateModel<R, L, M>,
    post: StateModel<R, L, M>,
)
    requires
        stage_steps(systems, pre, post),
        systems.len() == 1,
        systems[0].kind is SwapMessages,
        systems[0].params@ == seq![Param::MsgAll(MsgAll)],
    ensures
        post == swap_all_model(pre),
{
    let (ds, tr) = choose|ds: Seq<Decision>, tr: Seq<StateModel<R, L, M>>| run_trace_ok(
        systems,
        ds,
        tr,
        pre,
        post,
    );
    assert(slot_step(systems[0], ds[0], tr[0], tr[1]));
    let ps = systems[0].params@;
    assert forall|i: int| 0 <= i < ps.len() implies crate::param::param_resolvable(
        #[trigger] ps[i],
        tr[0],
    ) by {
        assert(ps[i] == Param::MsgAll(MsgAll));
    }
    assert(!crate::param::params_conflict(ps));
    assert(ds[0] == Decision::Ran);
    assert(tr[1] == swap_all_model(tr[0]));
}

/// A single stage: an ordered list of systems.
///
/// The order is registration order and is never reordered by the runtime;
/// `run` invokes (or skips) the slots front to back.
pub struct Stage<S> {
    pub systems: Vec<SystemEntry<S>>,
}

impl<S> Default for Stage<S> {
    /// The same as `Stage::new`: a stage with no systems.
    fn default() -> (s: Self)
        ensures
            s.systems@ == Seq::<SystemEntry<S>>::empty(),
    {
        Stage::new()
    }
}

impl<S> Stage<S> {
    /// Creates a stage with no systems.
    pub fn new() -> (s: Self)
        ensures
            s.systems@ == Seq::<SystemEntry<S>>::empty(),
    {
        Stage { systems: Vec::new() }
    }

    /// The number of systems in the stage.
    pub fn len(&self) -> (n: usize)
        ensures
            n == self.systems@.len(),
    {
        self.systems.len()
    }

    /// Appends a system with its declared parameter list.
    ///
    /// Systems execute in the order they were added.
    pub fn add_system(&mut self, params: Vec<Param>, system: S)
        ensures
            final(self).systems@ == old(self).systems@.push(
                (SystemEntry { params, kind: SystemKind::User(system) }),
            ),
    {
        self.systems.push(SystemEntry { params, kind: SystemKind::User(system) });
    }

    /// Appends the runtime's tick-boundary swap system.  Its parameter list
    /// claims exclusive access to the whole message storage.
    pub fn add_swap_system(&mut self)
        ensures
            final(self).systems@.len() == old(self).systems@.len() + 1,
            final(self).systems@.drop_last() == old(self).systems@,
            final(self).systems@.last().kind is SwapMessages,
            final(self).systems@.last().params@ == seq![Param::MsgAll(MsgAll)],
    {
        let mut params: Vec<Param> = Vec::new();
        params.push(Param::MsgAll(MsgAll));
        self.systems.push(SystemEntry { params, kind: SystemKind::SwapMessages });
        proof {
            assert(final(self).systems@.drop_last() =~= old(self).systems@);
            assert(final(self).systems@.last().params@ =~= seq![Param::MsgAll(MsgAll)]);
        }
    }

    /// Runs the stage: every slot takes its turn in registration order.
    ///
    /// For each slot, the runtime resolves the declared parameter list
    /// against the state of that moment; the slot is invoked exactly when
    /// resolution succeeds and the borrow ledger finds no aliasing pair.
    /// The returned vector holds one decision per slot, in slot order.
    pub fn run<R, L, M>(&self, state: &mut State<R, L, M>) -> (ds: Vec<Decision>)
        where
            S: System<R, L, M>,
        ensures
            exists|tr: Seq<StateModel<R, L, M>>| run_trace_ok(
                self.systems@,
                ds@,
                tr,
                old(state)@,
                final(state)@,
            ),
    {
        let mut decisions: Vec<Decision> = Vec::new();
        let ghost mut tr: Seq<StateModel<R, L, M>> = seq![state@];
        let n = self.systems.len();
        let mut j: usize = 0;
        while j < n
            invariant
                n == self.systems@.len(),
                j <= n,
                decisions@.len() == j,
                tr.len() == j + 1,
                tr[0] == old(state)@,
                tr[j as int] == state@,
                forall|i: int| 0 <= i < j ==> slot_step(
                    #[trigger] self.systems@[i],
                    decisions@[i],
                    tr[i],
                    tr[i + 1],
                ),
            decreases n - j,
        {
            let entry = &self.systems[j];
            let d = decide(&entry.params, state);
            match d {
                Decision::Ran => {
                    match &entry.kind {
                        SystemKind::SwapMessages => {
                            let ghost before = state@;
                            state.messages.swap_all();
                            proof {
                                assert(state@.messages =~= before.messages.map_values(
                                    |q| swapped_queue(q),
                                ));
                                assert(state@ =~= swap_all_model(before));
                            }
                        },
                        SystemKind::User(s) => {
                            s.run(state);
                        },
                    }
                },
                _ => {},
            }
            decisions.push(d);
            proof {
                tr = tr.push(state@);
            }
            j += 1;
        }
        proof {
            assert(run_trace_ok(self.systems@, decisions@, tr, old(state)@, state@));
        }
        decisions
    }
}

/// The registry of stages, keyed by stage tag token.
///
/// Stage topology is decided at startup: looking up a tag that was never
/// registered is a configuration error, which the schedulers report as
/// `RunError::MissingStage` rather than pass over in silence.
pub struct Stages<S> {
    pub stages: Store<Stage<S>>,
}

impl<S> View for Stages<S> {
    type V = Map<u64, Stage<S>>;

    open spec fn view(&self) -> Map<u64, Stage<S>> {
        self.stages@
    }
}

impl<S> Default for Stages<S> {
    /// The same as `Stages::new`: an empty registry.
    fn default() -> (s: Self)
        ensures
            s@ == Map::<u64, Stage<S>>::empty(),
    {
        Stages::new()
    }
}

impl<S> Stages<S> {
    /// Creates an empty registry.
    pub fn new() -> (s: Self)
        ensures
            s@ == Map::<u64, Stage<S>>::empty(),
    {
        Stages { stages: Store::new() }
    }

    /// Registers (or replaces) the stage under `tag`.
    pub fn add(&mut self, tag: u64, stage: Stage<S>)
        ensures
            final(self)@ == old(self)@.insert(tag, stage),
    {
        self.stages.insert(tag, stage);
    }

    /// The stage registered under `tag`, if any.
    pub fn get(&self, tag: u64) -> (r: Option<&Stage<S>>)
        ensures
            match r {
                Some(st) => self@.contains_key(tag) && *st == self@[tag],
                None => !self@.contains_key(tag),
            },
    {
        self.stages.get(tag)
    }

    /// The stage registered under `tag`, if any; the same lookup as `get`,
    /// under the name callers that hold a bare token use.
    pub fn get_by_id(&self, tag: u64) -> (r: Option<&Stage<S>>)
        ensures
            match r {
                Some(st) => self@.contains_key(tag) && *st == self@[tag],
                None => !self@.contains_key(tag),
            },
    {
        self.stages.get(tag)
    }

    /// Exclusive access to the stage registered under `tag`; the stage
    /// must exist (stage topology is decided at startup).
    pub fn get_mut(&mut self, tag: u64) -> (st: &mut Stage<S>)
        requires
            old(self)@.contains_key(tag),
        ensures
            *st == old(self)@[tag],
            final(self)@ == old(self)@.insert(tag, *final(st)),
    {
        self.stages.fetch_mut(tag)
    }

    /// Whether a stage is registered under `tag`.
    pub fn contains(&self, tag: u64) -> (b: bool)
        ensures
            b == self@.contains_key(tag),
    {
        self.stages.contains(tag)
    }

    /// Appends a system to the stage registered under `tag`.
    ///
    /// The stage must exist: registering systems against an unknown tag is
    /// a configuration error (the caller is told so by this contract).
    pub fn add_system(&mut self, tag: u64, params: Vec<Param>, system: S)
        requires
            old(self)@.contains_key(tag),
        ensures
            final(self)@ == old(self)@.insert(tag, final(self)@[tag]),
            final(self)@[tag].systems@ == old(self)@[tag].systems@.push(
                (SystemEntry { params, kind: SystemKind::User(system) }),
            ),
    {
        let mut stage = match self.stages.remove(tag) {
            Some(st) => st,
            None => unreached(),
        };
        stage.add_system(params, system);
        self.stages.insert(tag, stage);
        proof {
            assert(final(self)@ =~= old(self)@.insert(tag, final(self)@[tag]));
        }
    }

    /// Appends the tick-boundary swap system to the stage under `tag`.
    pub fn add_swap_system(&mut self, tag: u64)
        requires
            old(self)@.contains_key(tag),
        ensures
            final(self)@ == old(self)@.insert(tag, final(self)@[tag]),
            final(self)@[tag].systems@.len() == old(self)@[tag].systems@.len() + 1,
            final(self)@[tag].systems@.drop_last() == old(self)@[tag].systems@,
            final(self)@[tag].systems@.last().kind is SwapMessages,
            final(self)@[tag].systems@.last().params@ == seq![Param::MsgAll(MsgAll)],
    {
        let mut stage = match self.stages.remove(tag) {
            Some(st) => st,
            None => unreached(),
        };
        stage.add_swap_system();
        self.stages.insert(tag, stage);
        proof {
            assert(final(self)@ =~= old(self)@.insert(tag, final(self)@[tag]));
        }
    }
}

} // verus!
