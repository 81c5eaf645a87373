//! Plugins that install the default stage topology and schedulers.

use crate::app::{AppCore, Plugin};
use crate::param::{MsgAll, Param};
use crate::sched::{FixedScheduler, MainScheduler, RenderScheduler, Scheduler};
use crate::stage::{Stage, SystemKind};
use crate::tags::{FIRST_STAGE, FIXED_FIRST_STAGE, FIXED_POST_UPDATE_STAGE,
    FIXED_PRE_UPDATE_STAGE, FIXED_UPDATE_STAGE, First, FixedFirst, FixedPostUpdate,
    FixedPreUpdate, FixedUpdate, POST_UPDATE_STAGE, PRE_UPDATE_STAGE, PostUpdate, PreUpdate,
    RENDER_FIRST_STAGE, RENDER_POST_UPDATE_STAGE, RENDER_PRE_UPDATE_STAGE, RENDER_UPDATE_STAGE,
    RenderFirst, RenderPostUpdate, RenderPreUpdate, RenderUpdate, StageTag, UPDATE_STAGE,
    Update};
use vstd::prelude::*;

verus! {

/// The default fixed step: 16 ms, close to sixty simulation ticks per
/// second.
pub const DEFAULT_FIXED_STEP_MS: u64 = 16;

/// The default catch-up cap: at most two fixed steps per external tick.
pub const DEFAULT_MAX_CATCH_UP: u64 = 2;

/// Whether `t` is one of the twelve default stage tokens.
pub open spec fn is_default_tag(t: u64) -> bool {
    ||| t == FIRST_STAGE
    ||| t == PRE_UPDATE_STAGE
    ||| t == UPDATE_STAGE
    ||| t == POST_UPDATE_STAGE
    ||| t == FIXED_FIRST_STAGE
    ||| t == FIXED_PRE_UPDATE_STAGE
    ||| t == FIXED_UPDATE_STAGE
    ||| t == FIXED_POST_UPDATE_STAGE
    ||| t == RENDER_FIRST_STAGE
    ||| t == RENDER_PRE_UPDATE_STAGE
    ||| t == RENDER_UPDATE_STAGE
    ||| t == RENDER_POST_UPDATE_STAGE
}

/// What both default-stage plugins leave behind: every default tag is
/// registered with an empty stage, and every other tag's registration is
/// exactly what it was.
pub open spec fn default_stages_installed<R, L, M, S>(
    pre: AppCore<R, L, M, S>,
    post: AppCore<R, L, M, S>,
) -> bool {
    &&& post.state == pre.state
    &&& post.runner == pre.runner
    &&& forall|t: u64| #[trigger] is_default_tag(t) ==> post.stages@.contains_key(t)
        && post.stages@[t].systems@.len() == 0
    &&& forall|t: u64| !is_default_tag(t) ==> (#[trigger] post.stages@.contains_key(t)
        == pre.stages@.contains_key(t)) && (pre.stages@.contains_key(t) ==> post.stages@[t]
        == pre.stages@[t])
}

/// Registers the twelve default stages, addressing them through their tag
/// types.
pub struct DefaultStagesPlugin;

impl<R, L, M, S> Plugin<R, L, M, S> for DefaultStagesPlugin {
    /// Registers the main, fixed and render stage groups: every default
    /// tag gets an empty stage, and no other registration is touched.
    fn build(&self, app: &mut AppCore<R, L, M, S>)
        ensures
            default_stages_installed(*old(app), *final(app)),
    {
        app.stages.add(First::stage_id(), Stage::new());
        app.stages.add(PreUpdate::stage_id(), Stage::new());
        app.stages.add(Update::stage_id(), Stage::new());
        app.stages.add(PostUpdate::stage_id(), Stage::new());
        app.stages.add(FixedFirst::stage_id(), Stage::new());
        app.stages.add(FixedPreUpdate::stage_id(), Stage::new());
        app.stages.add(FixedUpdate::stage_id(), Stage::new());
        app.stages.add(FixedPostUpdate::stage_id(), Stage::new());
        app.stages.add(RenderFirst::stage_id(), Stage::new());
        app.stages.add(RenderPreUpdate::stage_id(), Stage::new());
        app.stages.add(RenderUpdate::stage_id(), Stage::new());
        app.stages.add(RenderPostUpdate::stage_id(), Stage::new());
    }
}

/// Registers the twelve default stages, addressing them through their bare
/// tokens; the effect is the same as `DefaultStagesPlugin`'s.
pub struct DefaultStagePlugin;

impl<R, L, M, S> Plugin<R, L, M, S> for DefaultStagePlugin {
    /// Registers the main, fixed and render stage groups: every default
    /// tag gets an empty stage, and no other registration is touched.
    fn build(&self, app: &mut AppCore<R, L, M, S>)
        ensures
            default_stages_installed(*old(app), *final(app)),
    {
        app.stages.add(FIRST_STAGE, Stage::new());
        app.stages.add(PRE_UPDATE_STAGE, Stage::new());
        app.stages.add(UPDATE_STAGE, Stage::new());
        app.stages.add(POST_UPDATE_STAGE, Stage::new());
        app.stages.add(FIXED_FIRST_STAGE, Stage::new());
        app.stages.add(FIXED_PRE_UPDATE_STAGE, Stage::new());
        app.stages.add(FIXED_UPDATE_STAGE, Stage::new());
        app.stages.add(FIXED_POST_UPDATE_STAGE, Stage::new());
        app.stages.add(RENDER_FIRST_STAGE, Stage::new());
        app.stages.add(RENDER_PRE_UPDATE_STAGE, Stage::new());
        app.stages.add(RENDER_UPDATE_STAGE, Stage::new());
        app.stages.add(RENDER_POST_UPDATE_STAGE, Stage::new());
    }
}

/// What the default-scheduler plugin leaves behind: the main, fixed-step
/// and render schedulers appended to the runner in that order, the
/// fixed-step policy configured with the default step and cap and having
/// consumed up to the monotonic time the state observed, and the
/// tick-boundary swap system appended to the `First` stage.  Nothing else
/// changes: the state, the earlier schedulers, `First`'s earlier systems
/// and the other stages are exactly what they were.
pub open spec fn default_schedulers_installed<R, L, M, S>(
    pre: AppCore<R, L, M, S>,
    post: AppCore<R, L, M, S>,
) -> bool {
    &&& post.state == pre.state
    &&& post.runner.schedulers@.len() == pre.runner.schedulers@.len() + 3
    &&& forall|i: int| 0 <= i < pre.runner.schedulers@.len()
        ==> #[trigger] post.runner.schedulers@[i] == pre.runner.schedulers@[i]
    &&& post.runner.schedulers@[post.runner.schedulers@.len() - 3] == Scheduler::Main(
        MainScheduler,
    )
    &&& ({
        let fixed = post.runner.schedulers@[post.runner.schedulers@.len() - 2];
        &&& fixed is Fixed
        &&& fixed->Fixed_0.spec_step_ms() == DEFAULT_FIXED_STEP_MS
        &&& fixed->Fixed_0.spec_max_catch_up() == DEFAULT_MAX_CATCH_UP
        &&& fixed->Fixed_0.spec_consumed() == pre.state@.now_ms
    })
    &&& post.runner.schedulers@[post.runner.schedulers@.len() - 1] == Scheduler::Render(
        RenderScheduler,
    )
    &&& post.stages@.contains_key(FIRST_STAGE)
    &&& (pre.stages@.contains_key(FIRST_STAGE)
        ==> post.stages@[FIRST_STAGE].systems@.drop_last()
            == pre.stages@[FIRST_STAGE].systems@)
    &&& (!pre.stages@.contains_key(FIRST_STAGE)
        ==> post.stages@[FIRST_STAGE].systems@.len() == 1)
    &&& post.stages@[FIRST_STAGE].systems@.len() >= 1
    &&& post.stages@[FIRST_STAGE].systems@.last().kind is SwapMessages
    &&& post.stages@[FIRST_STAGE].systems@.last().params@ == seq![Param::MsgAll(MsgAll)]
    &&& forall|t: u64| t != FIRST_STAGE ==> (#[trigger] post.stages@.contains_key(t)
        == pre.stages@.contains_key(t)) && (pre.stages@.contains_key(t) ==> post.stages@[t]
        == pre.stages@[t])
}

/// Registers the three default schedulers — main, fixed-step, render, in
/// that order — and schedules the tick-boundary message swap.
pub struct DefaultSchedulersPlugin;

impl<R, L, M, S> Plugin<R, L, M, S> for DefaultSchedulersPlugin {
    /// Appends the main, fixed-step and render schedulers to the runner,
    /// in that order after whatever was registered before, and appends the
    /// message-swap system to the `First` stage, registering that stage
    /// first if it does not exist yet.  The fixed-step scheduler starts
    /// with the default step and cap, having consumed up to the monotonic
    /// time the state currently observes.  Nothing else changes: the
    /// state, the earlier schedulers, `First`'s earlier systems and the
    /// other stages are left exactly as they were.
    fn build(&self, app: &mut AppCore<R, L, M, S>)
        ensures
            default_schedulers_installed(*old(app), *final(app)),
    {
        if !app.stages.contains(FIRST_STAGE) {
            app.stages.add(FIRST_STAGE, Stage::new());
        }
        app.stages.add_swap_system(FIRST_STAGE);
        let start = app.state.now_ms;
        app.runner.add_scheduler(Scheduler::Main(MainScheduler));
        app.runner.add_scheduler(
            Scheduler::Fixed(FixedScheduler::new(DEFAULT_FIXED_STEP_MS, DEFAULT_MAX_CATCH_UP,
                start)),
        );
        app.runner.add_scheduler(Scheduler::Render(RenderScheduler));
    }
}

/// Installing the default stages and then the default schedulers yields
/// exactly the topology that `law_default_tick_swaps_once` speaks of: the
/// tick-boundary swap alone in `First`, every other default stage empty,
/// and the three default policies at the end of the runner.
pub proof fn lemma_default_setup_topology<R, L, M, S>(
    c0: AppCore<R, L, M, S>,
    c1: AppCore<R, L, M, S>,
    c2: AppCore<R, L, M, S>,
)
    requires
        default_stages_installed(c0, c1),
        default_schedulers_installed(c1, c2),
    ensures
        crate::sched::default_main_topology(c2.stages@),
        forall|i: int| 0 <= i < crate::sched::fixed_stage_ids().len() ==> c2.stages@[
            #[trigger] crate::sched::fixed_stage_ids()[i]
        ].systems@.len() == 0,
        forall|i: int| 0 <= i < crate::sched::render_stage_ids().len() ==> c2.stages@[
            #[trigger] crate::sched::render_stage_ids()[i]
        ].systems@.len() == 0,
{
    assert(is_default_tag(FIRST_STAGE));
    assert(c1.stages@[FIRST_STAGE].systems@.len() == 0);
    assert(c2.stages@[FIRST_STAGE].systems@.len() == 1);
    assert(is_default_tag(PRE_UPDATE_STAGE));
    assert(c2.stages@.contains_key(PRE_UPDATE_STAGE));
    assert(is_default_tag(UPDATE_STAGE));
    assert(c2.stages@.contains_key(UPDATE_STAGE));
    assert(is_default_tag(POST_UPDATE_STAGE));
    assert(c2.stages@.contains_key(POST_UPDATE_STAGE));
    assert(crate::sched::default_main_topology(c2.stages@));
    assert forall|i: int| 0 <= i < crate::sched::fixed_stage_ids().len() implies c2.stages@[
        #[trigger] crate::sched::fixed_stage_ids()[i]
    ].systems@.len() == 0 by {
        let t = crate::sched::fixed_stage_ids()[i];
        assert(is_default_tag(t));
        assert(t != FIRST_STAGE);
        assert(c2.stages@.contains_key(t));
    }
    assert forall|i: int| 0 <= i < crate::sched::render_stage_ids().len() implies c2.stages@[
        #[trigger] crate::sched::render_stage_ids()[i]
    ].systems@.len() == 0 by {
        let t = crate::sched::render_stage_ids()[i];
        assert(is_default_tag(t));
        assert(t != FIRST_STAGE);
        assert(c2.stages@.contains_key(t));
    }
}

} // verus!
