//! Tests of parameter resolution, stage execution order, and the three
//! scheduler policies.

use limnus_core::param::{Decision, LoRe, Msg, MsgM, Param, Re, ReAll, ReM, decide};
use limnus_core::sched::{FixedScheduler, MainScheduler, RenderScheduler, RunError, Runner,
    Scheduler};
use limnus_core::stage::{Stage, Stages};
use limnus_core::state::State;
use limnus_core::system::System;
use limnus_core::tags::{FIRST_STAGE, FIXED_FIRST_STAGE, FIXED_POST_UPDATE_STAGE,
    FIXED_PRE_UPDATE_STAGE, FIXED_UPDATE_STAGE, POST_UPDATE_STAGE, PRE_UPDATE_STAGE,
    RENDER_FIRST_STAGE, RENDER_POST_UPDATE_STAGE, RENDER_PRE_UPDATE_STAGE, RENDER_UPDATE_STAGE,
    UPDATE_STAGE};

const COUNTER: u64 = 100;
const LOG: u64 = 101;
const ABSENT: u64 = 102;
const PING: u64 = 200;

#[derive(Debug, Clone, PartialEq)]
enum TestRes {
    Counter(u64),
    Log(Vec<u64>),
}

#[derive(Debug, Clone, PartialEq)]
enum TestLocal {}

#[derive(Debug, Clone, PartialEq)]
enum TestMsg {
    Ping(u64),
}

#[derive(Debug, Clone)]
enum TestSys {
    IncCounter,
    AppendLog(u64),
    NeedsAbsent,
    AliasedLog(u64),
    SendPing(u64),
}

fn log_params() -> Vec<Param> {
    vec![Param::ReM(ReM::new(LOG))]
}

impl System<TestRes, TestLocal, TestMsg> for TestSys {
    fn run(&self, state: &mut State<TestRes, TestLocal, TestMsg>) {
        match self {
            TestSys::IncCounter => {
                if state.has_resource(COUNTER) {
                    if let TestRes::Counter(c) = state.resource_mut(COUNTER) {
                        *c += 1;
                    }
                }
            }
            TestSys::AppendLog(mark) | TestSys::AliasedLog(mark) => {
                if let Some(TestRes::Log(mut log)) = state.remove_resource(LOG) {
                    log.push(*mark);
                    state.insert_resource(LOG, TestRes::Log(log));
                }
            }
            TestSys::NeedsAbsent => {
                // Declared against `ABSENT`; must never be invoked while
                // that key is missing.
                panic!("a system with an unresolved dependency was invoked");
            }
            TestSys::SendPing(v) => {
                if state.get_messages(PING).is_some() {
                    state.send(PING, TestMsg::Ping(*v));
                }
            }
        }
    }
}

fn fresh_state() -> State<TestRes, TestLocal, TestMsg> {
    let mut state = State::new();
    state.insert_resource(COUNTER, TestRes::Counter(0));
    state.insert_resource(LOG, TestRes::Log(Vec::new()));
    state
}

fn log_of(state: &State<TestRes, TestLocal, TestMsg>) -> Vec<u64> {
    match state.get_resource(LOG) {
        Some(TestRes::Log(log)) => log.clone(),
        _ => panic!("log resource missing"),
    }
}

fn counter_of(state: &State<TestRes, TestLocal, TestMsg>) -> u64 {
    match state.get_resource(COUNTER) {
        Some(TestRes::Counter(c)) => *c,
        _ => panic!("counter resource missing"),
    }
}

#[test]
fn ledger_reports_exclusive_shared_overlap() {
    let state = fresh_state();
    let params = vec![Param::ReM(ReM::new(LOG)), Param::Re(Re::new(LOG))];
    assert_eq!(decide(&params, &state), Decision::SkippedAliasing);
}

#[test]
fn ledger_allows_two_shared_views_of_one_cell() {
    let state = fresh_state();
    let params = vec![Param::Re(Re::new(LOG)), Param::Re(Re::new(LOG))];
    assert_eq!(decide(&params, &state), Decision::Ran);
}

#[test]
fn ledger_allows_exclusive_access_to_distinct_cells() {
    let state = fresh_state();
    let params = vec![Param::ReM(ReM::new(LOG)), Param::ReM(ReM::new(COUNTER))];
    assert_eq!(decide(&params, &state), Decision::Ran);
}

#[test]
fn ledger_reports_whole_storage_against_one_cell() {
    let state = fresh_state();
    let params = vec![Param::ReAll(ReAll), Param::Re(Re::new(COUNTER))];
    assert_eq!(decide(&params, &state), Decision::SkippedAliasing);
}

#[test]
fn ledger_ignores_overlap_across_namespaces() {
    let mut state = fresh_state();
    state.create_message_type(LOG);
    let params = vec![Param::ReM(ReM::new(LOG)), Param::MsgM(MsgM::new(LOG))];
    assert_eq!(decide(&params, &state), Decision::Ran);
}

#[test]
fn missing_dependency_wins_over_aliasing() {
    let state = fresh_state();
    let params = vec![Param::ReM(ReM::new(ABSENT)), Param::Re(Re::new(ABSENT))];
    assert_eq!(decide(&params, &state), Decision::SkippedMissing);
}

#[test]
fn missing_local_resource_fails_resolution() {
    let state = fresh_state();
    let params = vec![Param::LoRe(LoRe::new(1))];
    assert_eq!(decide(&params, &state), Decision::SkippedMissing);
}

#[test]
fn missing_message_type_fails_resolution() {
    let state = fresh_state();
    let params = vec![Param::Msg(Msg::new(PING))];
    assert_eq!(decide(&params, &state), Decision::SkippedMissing);
}

#[test]
fn systems_run_in_registration_order() {
    let mut stage: Stage<TestSys> = Stage::new();
    stage.add_system(log_params(), TestSys::AppendLog(1));
    stage.add_system(log_params(), TestSys::AppendLog(2));
    stage.add_system(log_params(), TestSys::AppendLog(3));
    let mut state = fresh_state();
    let ds = stage.run(&mut state);
    assert_eq!(ds, vec![Decision::Ran, Decision::Ran, Decision::Ran]);
    assert_eq!(log_of(&state), vec![1, 2, 3]);
    // A second run repeats the same order deterministically.
    let ds = stage.run(&mut state);
    assert_eq!(ds, vec![Decision::Ran, Decision::Ran, Decision::Ran]);
    assert_eq!(log_of(&state), vec![1, 2, 3, 1, 2, 3]);
}

#[test]
fn absent_dependency_skips_the_system_and_nothing_else() {
    let mut stage: Stage<TestSys> = Stage::new();
    stage.add_system(log_params(), TestSys::AppendLog(1));
    stage.add_system(vec![Param::Re(Re::new(ABSENT))], TestSys::NeedsAbsent);
    stage.add_system(log_params(), TestSys::AppendLog(2));
    let mut state = fresh_state();
    // Never panics, for as long as `ABSENT` stays absent.
    let ds = stage.run(&mut state);
    assert_eq!(ds, vec![Decision::Ran, Decision::SkippedMissing, Decision::Ran]);
    assert_eq!(log_of(&state), vec![1, 2]);
    let ds = stage.run(&mut state);
    assert_eq!(ds, vec![Decision::Ran, Decision::SkippedMissing, Decision::Ran]);
    assert_eq!(log_of(&state), vec![1, 2, 1, 2]);
}

#[test]
fn aliasing_parameters_skip_the_system() {
    let mut stage: Stage<TestSys> = Stage::new();
    stage.add_system(
        vec![Param::ReM(ReM::new(LOG)), Param::Re(Re::new(LOG))],
        TestSys::AliasedLog(9),
    );
    let mut state = fresh_state();
    let ds = stage.run(&mut state);
    assert_eq!(ds, vec![Decision::SkippedAliasing]);
    assert_eq!(log_of(&state), Vec::<u64>::new());
}

#[test]
fn swap_system_swaps_inside_a_stage_run() {
    let mut stage: Stage<TestSys> = Stage::new();
    stage.add_system(vec![Param::MsgM(MsgM::new(PING))], TestSys::SendPing(5));
    stage.add_swap_system();
    let mut state = fresh_state();
    state.create_message_type(PING);
    let ds = stage.run(&mut state);
    assert_eq!(ds, vec![Decision::Ran, Decision::Ran]);
    let q = state.get_messages(PING).unwrap();
    assert_eq!(q.iter_previous(), &vec![TestMsg::Ping(5)]);
    assert!(q.iter_current().is_empty());
}

fn stages_with(tags: &[u64]) -> Stages<TestSys> {
    let mut stages: Stages<TestSys> = Stages::new();
    for &t in tags {
        stages.add(t, Stage::new());
    }
    stages
}

#[test]
fn missing_stage_is_a_reported_error() {
    let stages: Stages<TestSys> = Stages::new();
    let mut state = fresh_state();
    let r = MainScheduler.schedule(&stages, &mut state);
    assert_eq!(r, Err(RunError::MissingStage(FIRST_STAGE)));
}

#[test]
fn missing_later_stage_is_reported_too() {
    let stages = stages_with(&[FIRST_STAGE, PRE_UPDATE_STAGE, UPDATE_STAGE]);
    let mut state = fresh_state();
    let r = MainScheduler.schedule(&stages, &mut state);
    assert_eq!(r, Err(RunError::MissingStage(POST_UPDATE_STAGE)));
}

#[test]
fn main_scheduler_runs_its_four_stages_once() {
    let mut stages = stages_with(&[FIRST_STAGE, PRE_UPDATE_STAGE, UPDATE_STAGE,
        POST_UPDATE_STAGE]);
    stages.add_system(UPDATE_STAGE, vec![Param::ReM(ReM::new(COUNTER))], TestSys::IncCounter);
    let mut state = fresh_state();
    assert_eq!(MainScheduler.schedule(&stages, &mut state), Ok(()));
    assert_eq!(counter_of(&state), 1);
    assert_eq!(MainScheduler.schedule(&stages, &mut state), Ok(()));
    assert_eq!(counter_of(&state), 2);
}

#[test]
fn render_scheduler_runs_its_four_stages_once() {
    let mut stages = stages_with(&[RENDER_FIRST_STAGE, RENDER_PRE_UPDATE_STAGE,
        RENDER_UPDATE_STAGE, RENDER_POST_UPDATE_STAGE]);
    stages.add_system(
        RENDER_UPDATE_STAGE,
        vec![Param::ReM(ReM::new(COUNTER))],
        TestSys::IncCounter,
    );
    let mut state = fresh_state();
    assert_eq!(RenderScheduler.schedule(&stages, &mut state), Ok(()));
    assert_eq!(counter_of(&state), 1);
}

fn fixed_stages() -> Stages<TestSys> {
    let mut stages = stages_with(&[FIXED_FIRST_STAGE, FIXED_PRE_UPDATE_STAGE,
        FIXED_UPDATE_STAGE, FIXED_POST_UPDATE_STAGE]);
    stages.add_system(
        FIXED_UPDATE_STAGE,
        vec![Param::ReM(ReM::new(COUNTER))],
        TestSys::IncCounter,
    );
    stages
}

#[test]
fn fixed_scheduler_catch_up_is_capped() {
    // A 16 ms step with a catch-up cap of 2: a single external tick that
    // is 1000 ms behind performs exactly 2 fixed steps and consumes
    // exactly 16 ms per step, not the observed 1000 ms.
    let stages = fixed_stages();
    let mut state = fresh_state();
    state.set_now(1000);
    let mut fixed = FixedScheduler::new(16, 2, 0);
    assert_eq!(fixed.schedule(&stages, &mut state), Ok(2));
    assert_eq!(counter_of(&state), 2);
    assert_eq!(fixed.consumed_up_to_time(), 32);
}

#[test]
fn fixed_scheduler_consumes_one_step_per_performed_tick() {
    let stages = fixed_stages();
    let mut state = fresh_state();
    state.set_now(16);
    let mut fixed = FixedScheduler::new(16, 2, 0);
    assert_eq!(fixed.schedule(&stages, &mut state), Ok(1));
    assert_eq!(counter_of(&state), 1);
    assert_eq!(fixed.consumed_up_to_time(), 16);
    // 15 ms of lag is less than one step: nothing runs, nothing consumed.
    state.set_now(31);
    assert_eq!(fixed.schedule(&stages, &mut state), Ok(0));
    assert_eq!(counter_of(&state), 1);
    assert_eq!(fixed.consumed_up_to_time(), 16);
}

#[test]
fn fixed_scheduler_idles_when_caught_up() {
    let stages = fixed_stages();
    let mut state = fresh_state();
    state.set_now(100);
    let mut fixed = FixedScheduler::new(16, 2, 100);
    assert_eq!(fixed.schedule(&stages, &mut state), Ok(0));
    assert_eq!(counter_of(&state), 0);
    assert_eq!(fixed.consumed_up_to_time(), 100);
    // Ahead of the clock: still nothing.
    let mut ahead = FixedScheduler::new(16, 2, 500);
    assert_eq!(ahead.schedule(&stages, &mut state), Ok(0));
    assert_eq!(ahead.consumed_up_to_time(), 500);
}

#[test]
fn fixed_scheduler_reports_missing_stages_only_when_it_must_run() {
    let stages: Stages<TestSys> = Stages::new();
    let mut state = fresh_state();
    let mut fixed = FixedScheduler::new(16, 2, 0);
    // Caught up: no stage is looked up, so no error.
    assert_eq!(fixed.schedule(&stages, &mut state), Ok(0));
    // Behind: the missing fixed stage is a fatal configuration error.
    state.set_now(1000);
    assert_eq!(
        fixed.schedule(&stages, &mut state),
        Err(RunError::MissingStage(FIXED_FIRST_STAGE))
    );
    assert_eq!(fixed.consumed_up_to_time(), 0);
}

#[test]
fn runner_executes_schedulers_in_registration_order() {
    let mut stages = stages_with(&[FIRST_STAGE, PRE_UPDATE_STAGE, UPDATE_STAGE,
        POST_UPDATE_STAGE, RENDER_FIRST_STAGE, RENDER_PRE_UPDATE_STAGE, RENDER_UPDATE_STAGE,
        RENDER_POST_UPDATE_STAGE]);
    stages.add_system(UPDATE_STAGE, log_params(), TestSys::AppendLog(1));
    stages.add_system(RENDER_UPDATE_STAGE, log_params(), TestSys::AppendLog(2));
    let mut state = fresh_state();
    let mut runner = Runner::new();
    runner.add_scheduler(Scheduler::Main(MainScheduler));
    runner.add_scheduler(Scheduler::Render(RenderScheduler));
    assert_eq!(runner.run_schedulers(&stages, &mut state), Ok(()));
    assert_eq!(log_of(&state), vec![1, 2]);
}

#[test]
fn runner_stops_at_the_first_configuration_error() {
    let stages = stages_with(&[RENDER_FIRST_STAGE, RENDER_PRE_UPDATE_STAGE,
        RENDER_UPDATE_STAGE, RENDER_POST_UPDATE_STAGE]);
    let mut state = fresh_state();
    let mut runner = Runner::new();
    runner.add_scheduler(Scheduler::Main(MainScheduler));
    runner.add_scheduler(Scheduler::Render(RenderScheduler));
    assert_eq!(
        runner.run_schedulers(&stages, &mut state),
        Err(RunError::MissingStage(FIRST_STAGE))
    );
}
