//! Tick-scheduling policies and the runner that drives them.
//!
//! A scheduler decides, once per external tick, which stages run and how
//! many times.  Three policies exist: the main group and the render group
//! each run their four stages exactly once per tick, and the fixed-step
//! policy replays its four stages as often as the accumulated lag between
//! the monotonic clock and the simulation allows, advancing its carried
//! `consumed_up_to_time` by exactly one fixed step per replay — never by
//! the observed wall-clock delta — and never more often per tick than its
//! catch-up cap, so that a long stall drops ticks instead of spiralling.

use crate::stage::{Stage, Stages, lemma_stage_steps_empty, lemma_stage_steps_swap_only,
    stage_steps, swap_all_model};
use crate::state::{State, StateModel};
use crate::system::System;
use crate::tags::{FIRST_STAGE, FIXED_FIRST_STAGE, FIXED_POST_UPDATE_STAGE,
    FIXED_PRE_UPDATE_STAGE, FIXED_UPDATE_STAGE, POST_UPDATE_STAGE, PRE_UPDATE_STAGE,
    RENDER_FIRST_STAGE, RENDER_POST_UPDATE_STAGE, RENDER_PRE_UPDATE_STAGE, RENDER_UPDATE_STAGE,
    UPDATE_STAGE};
use vstd::prelude::*;

verus! {

/// A configuration error met while scheduling.
#[derive(Clone, Copy, Debug, PartialEq, Eq, Structural)]
pub enum RunError {
    /// A scheduler needed the stage registered under this tag, and none was.
    /// Stage topology is decided at startup, so this is fatal, never a
    /// silent no-op.
    MissingStage(u64),
}

/// The tag named by a `MissingStage` error.
pub open spec fn missing_tag(e: RunError) -> u64 {
    match e {
        RunError::MissingStage(t) => t,
    }
}

/// The stage group of the main policy, in running order.
pub open spec fn main_stage_ids() -> Seq<u64> {
    seq![FIRST_STAGE, PRE_UPDATE_STAGE, UPDATE_STAGE, POST_UPDATE_STAGE]
}

/// The stage group of the fixed-step policy, in running order.
pub open spec fn fixed_stage_ids() -> Seq<u64> {
    seq![FIXED_FIRST_STAGE, FIXED_PRE_UPDATE_STAGE, FIXED_UPDATE_STAGE, FIXED_POST_UPDATE_STAGE]
}

/// The stage group of the render policy, in running order.
pub open spec fn render_stage_ids() -> Seq<u64> {
    seq![RENDER_FIRST_STAGE, RENDER_PRE_UPDATE_STAGE, RENDER_UPDATE_STAGE,
        RENDER_POST_UPDATE_STAGE]
}

/// Every tag of the group is registered.
pub open spec fn stages_present<S>(tags: Seq<u64>, stages: Map<u64, Stage<S>>) -> bool {
    forall|i: int| 0 <= i < tags.len() ==> stages.contains_key(#[trigger] tags[i])
}

/// One pass over a stage group: the stages under `tags` ran in order, each
/// by some admissible stage run, chaining `pre` to `post`.
///
/// The recursion peels the last stage off: one pass over `tags` is one pass
/// over all but the last, followed by an admissible run of the last.
pub open spec fn group_steps<R, L, M, S>(
    tags: Seq<u64>,
    stages: Map<u64, Stage<S>>,
    pre: StateModel<R, L, M>,
    post: StateModel<R, L, M>,
) -> bool
    decreases tags.len(),
{
    if tags.len() == 0 {
        post == pre
    } else {
        exists|mid: StateModel<R, L, M>|
            group_steps(tags.drop_last(), stages, pre, mid) && #[trigger] stage_steps(
                stages[tags.last()].systems@,
                mid,
                post,
            )
    }
}

/// `n` passes over a stage group, chained one after the other.
pub open spec fn repeated_group_steps<R, L, M, S>(
    n: nat,
    tags: Seq<u64>,
    stages: Map<u64, Stage<S>>,
    pre: StateModel<R, L, M>,
    post: StateModel<R, L, M>,
) -> bool
    decreases n,
{
    if n == 0 {
        post == pre
    } else {
        exists|mid: StateModel<R, L, M>|
            repeated_group_steps((n - 1) as nat, tags, stages, pre, mid)
                && #[trigger] group_steps(tags, stages, mid, post)
    }
}

/// Extends a group pass by one more stage at its end.
proof fn lemma_group_steps_snoc<R, L, M, S>(
    tags: Seq<u64>,
    stages: Map<u64, Stage<S>>,
    tag: u64,
    pre: StateModel<R, L, M>,
    mid: StateModel<R, L, M>,
    post: StateModel<R, L, M>,
)
    requires
        group_steps(tags, stages, pre, mid),
        stage_steps(stages[tag].systems@, mid, post),
    ensures
        group_steps(tags.push(tag), stages, pre, post),
{
    let t2 = tags.push(tag);
    assert(t2.drop_last() =~= tags);
    assert(t2.last() == tag);
    assert(group_steps(t2.drop_last(), stages, pre, mid));
    assert(stage_steps(stages[t2.last()].systems@, mid, post));
    assert(group_steps(t2, stages, pre, post));
}

/// Extends a repeated pass by one more full pass at its end.
proof fn lemma_repeated_snoc<R, L, M, S>(
    n: nat,
    tags: Seq<u64>,
    stages: Map<u64, Stage<S>>,
    pre: StateModel<R, L, M>,
    mid: StateModel<R, L, M>,
    post: StateModel<R, L, M>,
)
    requires
        repeated_group_steps(n, tags, stages, pre, mid),
        group_steps(tags, stages, mid, post),
    ensures
        repeated_group_steps(n + 1, tags, stages, pre, post),
{
    assert(repeated_group_steps(((n + 1) - 1) as nat, tags, stages, pre, mid));
    assert(repeated_group_steps(n + 1, tags, stages, pre, post));
}

/// A pass over a group whose stages hold no systems leaves the state as
/// it was.
proof fn lemma_group_steps_all_empty<R, L, M, S>(
    tags: Seq<u64>,
    stages: Map<u64, Stage<S>>,
    pre: StateModel<R, L, M>,
    post: StateModel<R, L, M>,
)
    requires
        group_steps(tags, stages, pre, post),
        forall|i: int| 0 <= i < tags.len() ==> stages[#[trigger] tags[i]].systems@.len() == 0,
    ensures
        post == pre,
    decreases tags.len(),
{
    if tags.len() > 0 {
        let mid = choose|mid: StateModel<R, L, M>|
            group_steps(tags.drop_last(), stages, pre, mid) && #[trigger] stage_steps(
                stages[tags.last()].systems@,
                mid,
                post,
            );
        assert(stages[tags[tags.len() - 1]].systems@.len() == 0);
        lemma_stage_steps_empty(stages[tags.last()].systems@, mid, post);
        assert(forall|i: int| 0 <= i < tags.drop_last().len() ==> stages[
            #[trigger] tags.drop_last()[i]
        ].systems@.len() == 0);
        lemma_group_steps_all_empty(tags.drop_last(), stages, pre, mid);
    }
}

/// Repeated passes over a group whose stages hold no systems leave the
/// state as it was.
proof fn lemma_repeated_all_empty<R, L, M, S>(
    n: nat,
    tags: Seq<u64>,
    stages: Map<u64, Stage<S>>,
    pre: StateModel<R, L, M>,
    post: StateModel<R, L, M>,
)
    requires
        repeated_group_steps(n, tags, stages, pre, post),
        forall|i: int| 0 <= i < tags.len() ==> stages[#[trigger] tags[i]].systems@.len() == 0,
    ensures
        post == pre,
    decreases n,
{
    if n > 0 {
        let mid = choose|mid: StateModel<R, L, M>|
            repeated_group_steps((n - 1) as nat, tags, stages, pre, mid) && #[trigger] group_steps(
                tags,
                stages,
                mid,
                post,
            );
        lemma_group_steps_all_empty(tags, stages, mid, post);
        lemma_repeated_all_empty((n - 1) as nat, tags, stages, pre, mid);
    }
}

/// The swap stands alone in `First` and the other main stages are empty.
pub open spec fn default_main_topology<S>(stages: Map<u64, Stage<S>>) -> bool {
    &&& stages[FIRST_STAGE].systems@.len() == 1
    &&& stages[FIRST_STAGE].systems@[0].kind is SwapMessages
    &&& stages[FIRST_STAGE].systems@[0].params@ == seq![
        crate::param::Param::MsgAll(crate::param::MsgAll),
    ]
    &&& stages[PRE_UPDATE_STAGE].systems@.len() == 0
    &&& stages[UPDATE_STAGE].systems@.len() == 0
    &&& stages[POST_UPDATE_STAGE].systems@.len() == 0
}

/// A main-group pass over the default topology, before any user system is
/// registered, does exactly one thing: the tick-boundary swap.
proof fn lemma_main_group_swap_only<R, L, M, S>(
    stages: Map<u64, Stage<S>>,
    pre: StateModel<R, L, M>,
    post: StateModel<R, L, M>,
)
    requires
        group_steps(main_stage_ids(), stages, pre, post),
        default_main_topology(stages),
    ensures
        post == swap_all_model(pre),
{
    let t4 = main_stage_ids();
    let t3 = t4.drop_last();
    let t2 = t3.drop_last();
    let t1 = t2.drop_last();
    let t0 = t1.drop_last();
    assert(t4.last() == POST_UPDATE_STAGE);
    assert(t3.last() == UPDATE_STAGE);
    assert(t2.last() == PRE_UPDATE_STAGE);
    assert(t1.last() == FIRST_STAGE);
    assert(t0.len() == 0);
    let m3 = choose|mid: StateModel<R, L, M>|
        group_steps(t3, stages, pre, mid) && #[trigger] stage_steps(
            stages[t4.last()].systems@,
            mid,
            post,
        );
    lemma_stage_steps_empty(stages[t4.last()].systems@, m3, post);
    let m2 = choose|mid: StateModel<R, L, M>|
        group_steps(t2, stages, pre, mid) && #[trigger] stage_steps(
            stages[t3.last()].systems@,
            mid,
            m3,
        );
    lemma_stage_steps_empty(stages[t3.last()].systems@, m2, m3);
    let m1 = choose|mid: StateModel<R, L, M>|
        group_steps(t1, stages, pre, mid) && #[trigger] stage_steps(
            stages[t2.last()].systems@,
            mid,
            m2,
        );
    lemma_stage_steps_empty(stages[t2.last()].systems@, m1, m2);
    let m0 = choose|mid: StateModel<R, L, M>|
        group_steps(t0, stages, pre, mid) && #[trigger] stage_steps(
            stages[t1.last()].systems@,
            mid,
            m1,
        );
    assert(m0 == pre);
    lemma_stage_steps_swap_only(stages[t1.last()].systems@, m0, m1);
}

/// The single serialization point, as a theorem: in a successful tick of
/// the default configuration — the main, fixed-step and render schedulers
/// in order, the tick-boundary swap alone in `First`, and no user system
/// registered in the other default stages — every registered message
/// queue's generations are swapped exactly once, and nothing else in the
/// state changes.
///
/// The stage-topology premises are exactly what installing the default
/// plugins leaves behind; `crate::defaults::lemma_default_setup_topology`
/// derives them from those plugins' contracts.
pub proof fn law_default_tick_swaps_once<R, L, M, S>(
    before: Seq<Scheduler>,
    after: Seq<Scheduler>,
    mids: Seq<StateModel<R, L, M>>,
    stages: Map<u64, Stage<S>>,
    pre: StateModel<R, L, M>,
    post: StateModel<R, L, M>,
)
    requires
        runner_trace_ok(before, after, mids, stages, pre, post, Ok::<(), RunError>(())),
        before.len() == 3,
        before[0] is Main,
        before[1] is Fixed,
        before[2] is Render,
        default_main_topology(stages),
        forall|i: int| 0 <= i < fixed_stage_ids().len() ==> stages[
            #[trigger] fixed_stage_ids()[i]
        ].systems@.len() == 0,
        forall|i: int| 0 <= i < render_stage_ids().len() ==> stages[
            #[trigger] render_stage_ids()[i]
        ].systems@.len() == 0,
    ensures
        post == swap_all_model(pre),
{
    assert(mids.len() == 4);
    assert(scheduler_rel(before[0], after[0], stages, mids[0], mids[1], true));
    assert(scheduler_rel(before[1], after[1], stages, mids[1], mids[2], true));
    assert(scheduler_rel(before[2], after[2], stages, mids[2], mids[3], true));
    assert(group_steps(main_stage_ids(), stages, mids[0], mids[1]));
    lemma_main_group_swap_only(stages, mids[0], mids[1]);
    let f0 = after[1];
    assert(f0 is Fixed);
    match (before[1], after[1]) {
        (Scheduler::Fixed(a), Scheduler::Fixed(b)) => {
            let plan = planned_ticks(
                a.spec_step_ms(),
                a.spec_max_catch_up(),
                a.spec_consumed(),
                mids[1].now_ms,
            );
            assert(repeated_group_steps(plan as nat, fixed_stage_ids(), stages, mids[1], mids[2]));
            lemma_repeated_all_empty(plan as nat, fixed_stage_ids(), stages, mids[1], mids[2]);
        },
        _ => {},
    }
    assert(group_steps(render_stage_ids(), stages, mids[2], mids[3]));
    lemma_group_steps_all_empty(render_stage_ids(), stages, mids[2], mids[3]);
}

/// Checks that every tag of a group is registered; reports the first gap.
fn check_group<S>(tags: &Vec<u64>, stages: &Stages<S>) -> (r: Result<(), RunError>)
    ensures
        r is Ok <==> stages_present(tags@, stages@),
        r is Err ==> tags@.contains(missing_tag(r->Err_0)) && !stages@.contains_key(
            missing_tag(r->Err_0),
        ),
{
    let n = tags.len();
    let mut j: usize = 0;
    while j < n
        invariant
            n == tags@.len(),
            j <= n,
            forall|i: int| 0 <= i < j ==> stages@.contains_key(#[trigger] tags@[i]),
        decreases n - j,
    {
        if !stages.contains(tags[j]) {
            return Err(RunError::MissingStage(tags[j]));
        }
        j += 1;
    }
    Ok(())
}

/// Runs every stage of a (fully registered) group once, in group order.
fn run_group<R, L, M, S: System<R, L, M>>(
    tags: &Vec<u64>,
    stages: &Stages<S>,
    state: &mut State<R, L, M>,
)
    requires
        stages_present(tags@, stages@),
    ensures
        group_steps(tags@, stages@, old(state)@, final(state)@),
{
    let n = tags.len();
    let mut j: usize = 0;
    proof {
        assert(tags@.take(0) =~= Seq::<u64>::empty());
    }
    while j < n
        invariant
            n == tags@.len(),
            j <= n,
            stages_present(tags@, stages@),
            group_steps(tags@.take(j as int), stages@, old(state)@, state@),
        decreases n - j,
    {
        let ghost mid = state@;
        let stage = match stages.get(tags[j]) {
            Some(st) => st,
            None => unreached(),
        };
        let ds = stage.run(state);
        proof {
            assert(stage_steps(stages@[tags@[j as int]].systems@, mid, state@));
            lemma_group_steps_snoc(
                tags@.take(j as int),
                stages@,
                tags@[j as int],
                old(state)@,
                mid,
                state@,
            );
            assert(tags@.take(j as int).push(tags@[j as int]) =~= tags@.take(j + 1));
        }
        j += 1;
    }
    proof {
        assert(tags@.take(n as int) =~= tags@);
    }
}

/// The main policy: runs `First`, `PreUpdate`, `Update` and `PostUpdate`
/// exactly once per external tick.
pub struct MainScheduler;

impl MainScheduler {
    /// Runs the main stage group once.
    ///
    /// Fails with `MissingStage`, touching nothing, exactly when one of the
    /// four stages was never registered.
    pub fn schedule<R, L, M, S: System<R, L, M>>(
        &self,
        stages: &Stages<S>,
        state: &mut State<R, L, M>,
    ) -> (r: Result<(), RunError>)
        ensures
            r is Ok <==> stages_present(main_stage_ids(), stages@),
            r is Ok ==> group_steps(main_stage_ids(), stages@, old(state)@, final(state)@),
            r is Err ==> final(state)@ == old(state)@ && main_stage_ids().contains(
                missing_tag(r->Err_0),
            ) && !stages@.contains_key(missing_tag(r->Err_0)),
    {
        let mut ids: Vec<u64> = Vec::new();
        ids.push(FIRST_STAGE);
        ids.push(PRE_UPDATE_STAGE);
        ids.push(UPDATE_STAGE);
        ids.push(POST_UPDATE_STAGE);
        proof {
            assert(ids@ =~= main_stage_ids());
        }
        match check_group(&ids, stages) {
            Ok(()) => {},
            Err(e) => {
                return Err(e);
            },
        }
        run_group(&ids, stages, state);
        Ok(())
    }
}

/// The render policy: runs `RenderFirst`, `RenderPreUpdate`, `RenderUpdate`
/// and `RenderPostUpdate` exactly once per external tick, independently of
/// the fixed-step catch-up outcome.
pub struct RenderScheduler;

impl RenderScheduler {
    /// Runs the render stage group once.
    ///
    /// Fails with `MissingStage`, touching nothing, exactly when one of the
    /// four stages was never registered.
    pub fn schedule<R, L, M, S: System<R, L, M>>(
        &self,
        stages: &Stages<S>,
        state: &mut State<R, L, M>,
    ) -> (r: Result<(), RunError>)
        ensures
            r is Ok <==> stages_present(render_stage_ids(), stages@),
            r is Ok ==> group_steps(render_stage_ids(), stages@, old(state)@, final(state)@),
            r is Err ==> final(state)@ == old(state)@ && render_stage_ids().contains(
                missing_tag(r->Err_0),
            ) && !stages@.contains_key(missing_tag(r->Err_0)),
    {
        let mut ids: Vec<u64> = Vec::new();
        ids.push(RENDER_FIRST_STAGE);
        ids.push(RENDER_PRE_UPDATE_STAGE);
        ids.push(RENDER_UPDATE_STAGE);
        ids.push(RENDER_POST_UPDATE_STAGE);
        proof {
            assert(ids@ =~= render_stage_ids());
        }
        match check_group(&ids, stages) {
            Ok(()) => {},
            Err(e) => {
                return Err(e);
            },
        }
        run_group(&ids, stages, state);
        Ok(())
    }
}

/// How many fixed steps one external tick performs: the accumulated lag
/// divided by the step, but never more than the catch-up cap.
pub open spec fn planned_ticks(step_ms: u64, cap: u64, consumed: u64, now: u64) -> int {
    if now <= consumed {
        0
    } else if (now - consumed) / (step_ms as int) < cap {
        (now - consumed) / (step_ms as int)
    } else {
        cap as int
    }
}

/// The fixed-step catch-up is capped: however far the monotonic clock has
/// run ahead, one external tick performs at most `cap` fixed steps, and
/// what it consumes — exactly one step per performed tick — never exceeds
/// the accumulated lag.
pub proof fn law_fixed_catch_up_capped(step_ms: u64, cap: u64, consumed: u64, now: u64)
    requires
        step_ms >= 1,
    ensures
        0 <= planned_ticks(step_ms, cap, consumed, now) <= cap,
        planned_ticks(step_ms, cap, consumed, now) * step_ms <= (if now >= consumed {
            (now - consumed) as int
        } else {
            0
        }),
{
    let plan = planned_ticks(step_ms, cap, consumed, now);
    if now > consumed {
        let lag = (now - consumed) as int;
        vstd::arithmetic::div_mod::lemma_fundamental_div_mod(lag, step_ms as int);
        vstd::arithmetic::div_mod::lemma_mod_bound(lag, step_ms as int);
        assert(0 <= lag / (step_ms as int));
        assert(plan * step_ms <= lag) by (nonlinear_arith)
            requires
                plan <= lag / (step_ms as int),
                0 <= plan,
                step_ms >= 1,
                lag == step_ms as int * (lag / (step_ms as int)) + lag % (step_ms as int),
                lag % (step_ms as int) >= 0,
        ;
    }
}

/// The fixed-step policy.
///
/// It carries the time it has consumed so far; each external tick it reads
/// the monotonic time the state observes and replays the fixed stage group
/// once per whole step of lag, up to its catch-up cap.  Lag beyond the cap
/// is deliberately dropped from this tick (and picked up by later ones):
/// that is the spiral-of-death protection.
pub struct FixedScheduler {
    step_ms: u64,
    max_catch_up: u64,
    consumed_up_to_time: u64,
}

impl FixedScheduler {
    #[verifier::type_invariant]
    spec fn well_formed(self) -> bool {
        self.step_ms >= 1
    }

    /// The configured step, in milliseconds.
    pub closed spec fn spec_step_ms(&self) -> u64 {
        self.step_ms
    }

    /// The configured catch-up cap: fixed steps allowed per external tick.
    pub closed spec fn spec_max_catch_up(&self) -> u64 {
        self.max_catch_up
    }

    /// The simulation time consumed so far, in milliseconds.
    pub closed spec fn spec_consumed(&self) -> u64 {
        self.consumed_up_to_time
    }

    /// Creates a fixed-step policy.
    ///
    /// `step_ms` is the fixed step; it cannot be zero.  `max_catch_up` caps
    /// how many steps one external tick may replay.  `start_ms` is the
    /// monotonic time from which consumption starts counting.
    pub fn new(step_ms: u64, max_catch_up: u64, start_ms: u64) -> (s: Self)
        requires
            step_ms >= 1,
        ensures
            s.spec_step_ms() == step_ms,
            s.spec_max_catch_up() == max_catch_up,
            s.spec_consumed() == start_ms,
    {
        FixedScheduler { step_ms, max_catch_up, consumed_up_to_time: start_ms }
    }

    /// The configured step, in milliseconds.
    pub fn step_ms(&self) -> (r: u64)
        ensures
            r == self.spec_step_ms(),
            r >= 1,
    {
        proof {
            use_type_invariant(self);
        }
        self.step_ms
    }

    /// The configured catch-up cap.
    pub fn max_catch_up(&self) -> (r: u64)
        ensures
            r == self.spec_max_catch_up(),
    {
        self.max_catch_up
    }

    /// The simulation time consumed so far, in milliseconds.
    pub fn consumed_up_to_time(&self) -> (r: u64)
        ensures
            r == self.spec_consumed(),
    {
        self.consumed_up_to_time
    }

    /// Runs the fixed stage group once per planned step and advances the
    /// carried `consumed_up_to_time` by exactly one step per replay.
    ///
    /// Returns how many steps ran.  When lag plans at least one step, the
    /// four fixed stages must all be registered; a gap is reported as
    /// `MissingStage` with nothing run and nothing consumed.  When no step
    /// is planned — the simulation has caught up, or is ahead — the state
    /// is untouched and no stage is looked up.
    pub fn schedule<R, L, M, S: System<R, L, M>>(
        &mut self,
        stages: &Stages<S>,
        state: &mut State<R, L, M>,
    ) -> (r: Result<u64, RunError>)
        ensures
            final(self).spec_step_ms() == old(self).spec_step_ms(),
            final(self).spec_max_catch_up() == old(self).spec_max_catch_up(),
            ({
                let plan = planned_ticks(
                    old(self).spec_step_ms(),
                    old(self).spec_max_catch_up(),
                    old(self).spec_consumed(),
                    old(state)@.now_ms,
                );
                match r {
                    Ok(ticks) => {
                        &&& ticks == plan
                        &&& final(self).spec_consumed() == old(self).spec_consumed()
                            + plan * old(self).spec_step_ms()
                        &&& final(self).spec_consumed() <= if old(state)@.now_ms
                            >= old(self).spec_consumed() {
                            old(state)@.now_ms as int
                        } else {
                            old(self).spec_consumed() as int
                        }
                        &&& plan > 0 ==> stages_present(fixed_stage_ids(), stages@)
                        &&& repeated_group_steps(
                            plan as nat,
                            fixed_stage_ids(),
                            stages@,
                            old(state)@,
                            final(state)@,
                        )
                    },
                    Err(e) => {
                        &&& plan > 0
                        &&& !stages_present(fixed_stage_ids(), stages@)
                        &&& fixed_stage_ids().contains(missing_tag(e))
                        &&& !stages@.contains_key(missing_tag(e))
                        &&& final(state)@ == old(state)@
                        &&& final(self).spec_consumed() == old(self).spec_consumed()
                    },
                }
            }),
    {
        proof {
            use_type_invariant(&*self);
        }
        let now = state.now_ms;
        let consumed = self.consumed_up_to_time;
        let step = self.step_ms;
        let ticks: u64 = if now <= consumed {
            0
        } else {
            let lag = now - consumed;
            let q = lag / step;
            if q < self.max_catch_up {
                q
            } else {
                self.max_catch_up
            }
        };
        proof {
            assert(ticks == planned_ticks(step, self.max_catch_up, consumed, now));
        }
        if ticks == 0 {
            return Ok(0);
        }
        let mut ids: Vec<u64> = Vec::new();
        ids.push(FIXED_FIRST_STAGE);
        ids.push(FIXED_PRE_UPDATE_STAGE);
        ids.push(FIXED_UPDATE_STAGE);
        ids.push(FIXED_POST_UPDATE_STAGE);
        proof {
            assert(ids@ =~= fixed_stage_ids());
        }
        match check_group(&ids, stages) {
            Ok(()) => {},
            Err(e) => {
                return Err(e);
            },
        }
        proof {
            vstd::arithmetic::div_mod::lemma_fundamental_div_mod(
                (now - consumed) as int,
                step as int,
            );
            vstd::arithmetic::div_mod::lemma_mod_bound((now - consumed) as int, step as int);
            assert(ticks * step <= now - consumed) by (nonlinear_arith)
                requires
                    ticks <= (now - consumed) as int / step as int,
                    step >= 1,
                    now > consumed,
                    (now - consumed) as int == step as int * ((now - consumed) as int
                        / step as int) + (now - consumed) as int % step as int,
                    (now - consumed) as int % step as int >= 0,
            ;
        }
        let mut k: u64 = 0;
        while k < ticks
            invariant
                k <= ticks,
                ticks * step <= now - consumed,
                step == self.step_ms,
                ids@ == fixed_stage_ids(),
                stages_present(fixed_stage_ids(), stages@),
                repeated_group_steps(k as nat, fixed_stage_ids(), stages@, old(state)@, state@),
            decreases ticks - k,
        {
            let ghost mid = state@;
            run_group(&ids, stages, state);
            proof {
                lemma_repeated_snoc(
                    k as nat,
                    fixed_stage_ids(),
                    stages@,
                    old(state)@,
                    mid,
                    state@,
                );
            }
            k += 1;
        }
        self.consumed_up_to_time = consumed + ticks * step;
        Ok(ticks)
    }
}

/// Whether two scheduler values are the same policy (their carried state,
/// if any, may differ).
pub open spec fn scheduler_variant_eq(a: Scheduler, b: Scheduler) -> bool {
    match (a, b) {
        (Scheduler::Main(_), Scheduler::Main(_)) => true,
        (Scheduler::Fixed(_), Scheduler::Fixed(_)) => true,
        (Scheduler::Render(_), Scheduler::Render(_)) => true,
        _ => false,
    }
}

/// One registered tick-scheduling policy.
pub enum Scheduler {
    /// The per-tick main group policy.
    Main(MainScheduler),
    /// The fixed-step catch-up policy.
    Fixed(FixedScheduler),
    /// The per-tick render group policy.
    Render(RenderScheduler),
}

/// The stage group a policy needs registered to be certain to succeed.
pub open spec fn scheduler_group_present<S>(s: Scheduler, stages: Map<u64, Stage<S>>) -> bool {
    match s {
        Scheduler::Main(_) => stages_present(main_stage_ids(), stages),
        Scheduler::Fixed(_) => stages_present(fixed_stage_ids(), stages),
        Scheduler::Render(_) => stages_present(render_stage_ids(), stages),
    }
}

/// How one scheduler's single execution relates what it saw to what it
/// left: the scheduler value before (`a`) and after (`b`), the state
/// before and after, and whether it succeeded.
///
/// The main and render policies carry no state and make one pass over
/// their group; the fixed-step policy keeps its configuration, advances
/// its consumed time by exactly one step per planned tick, and makes one
/// pass per planned tick.  A failing scheduler leaves the state and its
/// own carried state untouched.
pub open spec fn scheduler_rel<R, L, M, S>(
    a: Scheduler,
    b: Scheduler,
    stages: Map<u64, Stage<S>>,
    pre: StateModel<R, L, M>,
    post: StateModel<R, L, M>,
    ok: bool,
) -> bool {
    match (a, b) {
        (Scheduler::Main(_), Scheduler::Main(_)) => if ok {
            stages_present(main_stage_ids(), stages) && group_steps(
                main_stage_ids(),
                stages,
                pre,
                post,
            )
        } else {
            !stages_present(main_stage_ids(), stages) && post == pre
        },
        (Scheduler::Fixed(f0), Scheduler::Fixed(f1)) => {
            let plan = planned_ticks(
                f0.spec_step_ms(),
                f0.spec_max_catch_up(),
                f0.spec_consumed(),
                pre.now_ms,
            );
            &&& f1.spec_step_ms() == f0.spec_step_ms()
            &&& f1.spec_max_catch_up() == f0.spec_max_catch_up()
            &&& if ok {
                &&& f1.spec_consumed() == f0.spec_consumed() + plan * f0.spec_step_ms()
                &&& (plan > 0 ==> stages_present(fixed_stage_ids(), stages))
                &&& repeated_group_steps(plan as nat, fixed_stage_ids(), stages, pre, post)
            } else {
                &&& plan > 0
                &&& !stages_present(fixed_stage_ids(), stages)
                &&& post == pre
                &&& f1.spec_consumed() == f0.spec_consumed()
            }
        },
        (Scheduler::Render(_), Scheduler::Render(_)) => if ok {
            stages_present(render_stage_ids(), stages) && group_steps(
                render_stage_ids(),
                stages,
                pre,
                post,
            )
        } else {
            !stages_present(render_stage_ids(), stages) && post == pre
        },
        _ => false,
    }
}

/// One full pass of the runner.  `mids` is the chain of states the
/// schedulers saw: `mids[0]` before the first, one more entry after each
/// scheduler that executed, and each executed scheduler relates its two
/// neighbouring states by `scheduler_rel`.  On success every scheduler
/// executed; on an error the failing scheduler left the state untouched
/// and the schedulers after it never ran.
pub open spec fn runner_trace_ok<R, L, M, S>(
    before: Seq<Scheduler>,
    after: Seq<Scheduler>,
    mids: Seq<StateModel<R, L, M>>,
    stages: Map<u64, Stage<S>>,
    pre: StateModel<R, L, M>,
    post: StateModel<R, L, M>,
    r: Result<(), RunError>,
) -> bool {
    let done = mids.len() - 1;
    &&& after.len() == before.len()
    &&& 1 <= mids.len() <= before.len() + 1
    &&& mids[0] == pre
    &&& mids[done] == post
    &&& forall|i: int| 0 <= i < done ==> scheduler_rel(
        before[i],
        #[trigger] after[i],
        stages,
        mids[i],
        mids[i + 1],
        true,
    )
    &&& (r is Ok ==> done == before.len())
    &&& (r is Err ==> done < before.len() && scheduler_rel(
        before[done],
        after[done],
        stages,
        post,
        post,
        false,
    ) && (forall|i: int| done < i < before.len() ==> after[i] == before[i]))
}

/// An ordered list of schedulers, executed once per external tick.
pub struct Runner {
    pub schedulers: Vec<Scheduler>,
}

impl Default for Runner {
    /// The same as `Runner::new`: a runner with no schedulers.
    fn default() -> (r: Self)
        ensures
            r.schedulers@ == Seq::<Scheduler>::empty(),
    {
        Runner::new()
    }
}

impl Runner {
    /// Creates a runner with no schedulers.
    pub fn new() -> (r: Self)
        ensures
            r.schedulers@ == Seq::<Scheduler>::empty(),
    {
        Runner { schedulers: Vec::new() }
    }

    /// Appends a scheduler; schedulers execute in registration order.
    pub fn add_scheduler(&mut self, scheduler: Scheduler)
        ensures
            final(self).schedulers@ == old(self).schedulers@.push(scheduler),
    {
        self.schedulers.push(scheduler);
    }

    /// Executes every registered scheduler once, in registration order,
    /// stopping at the first configuration error.
    ///
    /// When every registered policy's stage group is present, the run
    /// succeeds; an error always names a stage that one of the registered
    /// policies needed and that was never registered.
    pub fn run_schedulers<R, L, M, S: System<R, L, M>>(
        &mut self,
        stages: &Stages<S>,
        state: &mut State<R, L, M>,
    ) -> (r: Result<(), RunError>)
        ensures
            final(self).schedulers@.len() == old(self).schedulers@.len(),
            forall|i: int| 0 <= i < old(self).schedulers@.len() ==> scheduler_variant_eq(
                #[trigger] final(self).schedulers@[i],
                old(self).schedulers@[i],
            ),
            exists|mids: Seq<StateModel<R, L, M>>| runner_trace_ok(
                old(self).schedulers@,
                final(self).schedulers@,
                mids,
                stages@,
                old(state)@,
                final(state)@,
                r,
            ),
            (forall|i: int| 0 <= i < old(self).schedulers@.len() ==> scheduler_group_present(
                #[trigger] old(self).schedulers@[i],
                stages@,
            )) ==> r is Ok,
            r is Err ==> !stages@.contains_key(missing_tag(r->Err_0)) && (exists|i: int|
                0 <= i < old(self).schedulers@.len() && !scheduler_group_present(
                    #[trigger] old(self).schedulers@[i],
                    stages@,
                )),
    {
        let n = self.schedulers.len();
        let mut j: usize = 0;
        let ghost mut mids: Seq<StateModel<R, L, M>> = seq![state@];
        while j < n
            invariant
                n == self.schedulers@.len(),
                n == old(self).schedulers@.len(),
                j <= n,
                mids.len() == j + 1,
                mids[0] == old(state)@,
                mids[j as int] == state@,
                forall|i: int| 0 <= i < j ==> scheduler_rel(
                    old(self).schedulers@[i],
                    #[trigger] self.schedulers@[i],
                    stages@,
                    mids[i],
                    mids[i + 1],
                    true,
                ),
                forall|i: int| j <= i < n ==> #[trigger] self.schedulers@[i] == old(
                    self,
                ).schedulers@[i],
            decreases n - j,
        {
            let ghost pre_step = state@;
            let mut current = Scheduler::Main(MainScheduler);
            self.schedulers.set_and_swap(j, &mut current);
            let ghost taken = current;
            let res: Result<(), RunError> = match &mut current {
                Scheduler::Main(m) => m.schedule(stages, state),
                Scheduler::Fixed(f) => {
                    match f.schedule(stages, state) {
                        Ok(_) => Ok(()),
                        Err(e) => Err(e),
                    }
                },
                Scheduler::Render(rr) => rr.schedule(stages, state),
            };
            self.schedulers.set_and_swap(j, &mut current);
            proof {
                assert(taken == old(self).schedulers@[j as int]);
            }
            match res {
                Ok(()) => {
                    proof {
                        assert(scheduler_rel(
                            old(self).schedulers@[j as int],
                            self.schedulers@[j as int],
                            stages@,
                            pre_step,
                            state@,
                            true,
                        ));
                        mids = mids.push(state@);
                    }
                },
                Err(e) => {
                    proof {
                        let t = missing_tag(e);
                        if taken is Main {
                            let idx = choose|idx: int|
                                0 <= idx < main_stage_ids().len() && main_stage_ids()[idx] == t;
                            assert(!stages_present(main_stage_ids(), stages@));
                        } else if taken is Fixed {
                            let idx = choose|idx: int|
                                0 <= idx < fixed_stage_ids().len() && fixed_stage_ids()[idx] == t;
                            assert(!stages_present(fixed_stage_ids(), stages@));
                        } else {
                            let idx = choose|idx: int|
                                0 <= idx < render_stage_ids().len() && render_stage_ids()[idx]
                                    == t;
                            assert(!stages_present(render_stage_ids(), stages@));
                        }
                        assert(!scheduler_group_present(old(self).schedulers@[j as int], stages@));
                        assert(scheduler_rel(
                            old(self).schedulers@[j as int],
                            self.schedulers@[j as int],
                            stages@,
                            state@,
                            state@,
                            false,
                        ));
                        assert(runner_trace_ok(
                            old(self).schedulers@,
                            self.schedulers@,
                            mids,
                            stages@,
                            old(state)@,
                            state@,
                            Err::<(), RunError>(e),
                        ));
                        assert forall|i: int|
                            0 <= i < old(self).schedulers@.len() implies scheduler_variant_eq(
                            #[trigger] self.schedulers@[i],
                            old(self).schedulers@[i],
                        ) by {
                            if i < j {
                                assert(scheduler_rel(
                                    old(self).schedulers@[i],
                                    self.schedulers@[i],
                                    stages@,
                                    mids[i],
                                    mids[i + 1],
                                    true,
                                ));
                            }
                        }
                    }
                    return Err(e);
                },
            }
            j += 1;
        }
        proof {
            assert(runner_trace_ok(
                old(self).schedulers@,
                self.schedulers@,
                mids,
                stages@,
                old(state)@,
                state@,
                Ok::<(), RunError>(()),
            ));
            assert forall|i: int|
                0 <= i < old(self).schedulers@.len() implies scheduler_variant_eq(
                #[trigger] self.schedulers@[i],
                old(self).schedulers@[i],
            ) by {
                assert(scheduler_rel(
                    old(self).schedulers@[i],
                    self.schedulers@[i],
                    stages@,
                    mids[i],
                    mids[i + 1],
                    true,
                ));
            }
        }
        Ok(())
    }
}

} // verus!
