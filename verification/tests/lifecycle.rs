//! Tests of the application lifecycle: plugin polling, post-initialization
//! order, and full ticks through the default stages and schedulers.

use limnus_core::app::{App, AppCore, AppPhase, Plugin, UpdateOutcome};
use limnus_core::clock::Clock;
use limnus_core::defaults::{DefaultSchedulersPlugin, DefaultStagePlugin, DefaultStagesPlugin};
use limnus_core::param::{LoRe, LoReM, Msg, MsgM, Param, Re, ReM};
use limnus_core::sched::{MainScheduler, RunError, Scheduler};
use limnus_core::state::State;
use limnus_core::system::System;
use limnus_core::tags::{FIRST_STAGE, FIXED_FIRST_STAGE, FIXED_UPDATE_STAGE, PRE_UPDATE_STAGE,
    RENDER_FIRST_STAGE, UPDATE_STAGE};

const READY_FLAG: u64 = 10;
const COUNTER: u64 = 11;
const LOG: u64 = 12;
const PING: u64 = 20;

#[derive(Debug, Clone, PartialEq)]
enum TestRes {
    Flag,
    Counter(u64),
    Log(Vec<u64>),
}

#[derive(Debug, Clone, PartialEq)]
enum TestLocal {
    Handle(u64),
}

#[derive(Debug, Clone, PartialEq)]
enum TestMsg {
    Ping(u64),
}

#[derive(Debug, Clone)]
enum TestSys {
    IncCounter,
    AppendLog(u64),
}

impl System<TestRes, TestLocal, TestMsg> for TestSys {
    fn run(&self, state: &mut State<TestRes, TestLocal, TestMsg>) {
        match self {
            TestSys::IncCounter => {
                if let Some(TestRes::Counter(c)) = state.remove_resource(COUNTER) {
                    state.insert_resource(COUNTER, TestRes::Counter(c + 1));
                }
            }
            TestSys::AppendLog(mark) => {
                if let Some(TestRes::Log(mut log)) = state.remove_resource(LOG) {
                    log.push(*mark);
                    state.insert_resource(LOG, TestRes::Log(log));
                }
            }
        }
    }
}

enum TestPlugin {
    Stages(DefaultStagesPlugin),
    StagesByToken(DefaultStagePlugin),
    Schedulers(DefaultSchedulersPlugin),
    /// Reports not-initialized until the `READY_FLAG` resource appears;
    /// appends its marker to the log during post-initialization.
    WaitsForFlag(u64),
    /// Always ready; appends its marker during post-initialization.
    Marker(u64),
}

impl Plugin<TestRes, TestLocal, TestMsg, TestSys> for TestPlugin {
    fn build(&self, app: &mut AppCore<TestRes, TestLocal, TestMsg, TestSys>) {
        match self {
            TestPlugin::Stages(p) => p.build(app),
            TestPlugin::StagesByToken(p) => p.build(app),
            TestPlugin::Schedulers(p) => p.build(app),
            TestPlugin::WaitsForFlag(_) | TestPlugin::Marker(_) => {}
        }
    }

    fn is_initialized(&self, app: &AppCore<TestRes, TestLocal, TestMsg, TestSys>) -> bool {
        match self {
            TestPlugin::WaitsForFlag(_) => app.state.has_resource(READY_FLAG),
            _ => true,
        }
    }

    fn post_initialization(&self, app: &mut AppCore<TestRes, TestLocal, TestMsg, TestSys>) {
        match self {
            TestPlugin::WaitsForFlag(mark) | TestPlugin::Marker(mark) => {
                if let Some(TestRes::Log(mut log)) = app.state.remove_resource(LOG) {
                    log.push(*mark);
                    app.state.insert_resource(LOG, TestRes::Log(log));
                }
            }
            _ => {}
        }
    }
}

type TestApp = App<TestRes, TestLocal, TestMsg, TestSys, TestPlugin>;

fn log_of(app: &TestApp) -> Vec<u64> {
    match app.get_resource_ref(LOG) {
        Some(TestRes::Log(log)) => log.clone(),
        _ => panic!("log resource missing"),
    }
}

fn counter_of(app: &TestApp) -> u64 {
    match app.get_resource_ref(COUNTER) {
        Some(TestRes::Counter(c)) => *c,
        _ => panic!("counter resource missing"),
    }
}

#[test]
fn update_waits_until_every_plugin_is_ready() {
    let mut app: TestApp = App::new();
    app.add_plugins(TestPlugin::Stages(DefaultStagesPlugin));
    app.insert_resource(LOG, TestRes::Log(Vec::new()));
    app.add_plugins(TestPlugin::WaitsForFlag(1));
    app.add_plugins(TestPlugin::Marker(2));
    app.add_stage_by_id(UPDATE_STAGE);
    app.add_scheduler(Scheduler::Main(MainScheduler));
    app.core.stages.add_system(
        UPDATE_STAGE,
        vec![Param::ReM(ReM::new(LOG))],
        TestSys::AppendLog(9),
    );

    // While the flag is absent, nothing happens at all: no hook runs, no
    // scheduler runs, no state changes.
    assert_eq!(app.update(5), Ok(UpdateOutcome::WaitingForPlugins));
    assert_eq!(app.update(6), Ok(UpdateOutcome::WaitingForPlugins));
    assert_eq!(app.phase, AppPhase::WaitingForPlugins);
    assert_eq!(log_of(&app), Vec::<u64>::new());

    // The tick after all plugins report ready: post-initialization runs
    // once per plugin, in registration order, before any scheduler runs.
    app.insert_resource(READY_FLAG, TestRes::Flag);
    assert_eq!(app.update(7), Ok(UpdateOutcome::Started));
    assert_eq!(app.phase, AppPhase::Running);
    assert_eq!(log_of(&app), vec![1, 2, 9]);

    // Later ticks run the schedulers only: the hooks never run again.
    assert_eq!(app.update(8), Ok(UpdateOutcome::Ran));
    assert_eq!(log_of(&app), vec![1, 2, 9, 9]);
}

#[test]
fn default_stage_plugins_install_twelve_empty_stages() {
    let mut app: TestApp = App::new();
    // A stage registered before keeps its contents; one under a default
    // tag is reset to empty.
    const CUSTOM: u64 = 77;
    app.add_stage_by_id(CUSTOM);
    app.core.stages.add_system(CUSTOM, vec![Param::ReM(ReM::new(LOG))], TestSys::AppendLog(1));
    app.add_plugins(TestPlugin::Stages(DefaultStagesPlugin));
    for tag in [FIRST_STAGE, PRE_UPDATE_STAGE, UPDATE_STAGE, FIXED_FIRST_STAGE,
        FIXED_UPDATE_STAGE, RENDER_FIRST_STAGE] {
        assert_eq!(app.core.stages.get(tag).expect("default stage missing").len(), 0);
    }
    assert_eq!(app.core.stages.get(CUSTOM).unwrap().len(), 1);
}

#[test]
fn default_schedulers_start_consumed_at_the_current_time() {
    let mut app: TestApp = App::new();
    app.core.state.set_now(500);
    app.add_plugins(TestPlugin::Stages(DefaultStagesPlugin));
    app.add_plugins(TestPlugin::Schedulers(DefaultSchedulersPlugin));
    // The swap system was appended to the (empty) First stage.
    assert_eq!(app.core.stages.get(FIRST_STAGE).unwrap().len(), 1);
    // The fixed policy carries the default step and cap and has consumed
    // up to the time the state observed at build.
    let fixed = app
        .core
        .runner
        .schedulers
        .iter()
        .find_map(|s| match s {
            Scheduler::Fixed(f) => Some((f.step_ms(), f.max_catch_up(), f.consumed_up_to_time())),
            _ => None,
        })
        .expect("no fixed scheduler registered");
    assert_eq!(fixed, (16, 2, 500));
}

#[test]
fn update_reports_a_missing_stage() {
    let mut app: TestApp = App::new();
    app.add_scheduler(Scheduler::Main(MainScheduler));
    assert_eq!(app.update(0), Err(RunError::MissingStage(FIRST_STAGE)));
}

#[test]
fn default_plugins_drive_a_full_tick() {
    let mut app: TestApp = App::new();
    app.add_plugins(TestPlugin::Stages(DefaultStagesPlugin));
    app.add_plugins(TestPlugin::Schedulers(DefaultSchedulersPlugin));
    app.insert_resource(COUNTER, TestRes::Counter(0));
    app.core.stages.add_system(
        FIXED_UPDATE_STAGE,
        vec![Param::ReM(ReM::new(COUNTER))],
        TestSys::IncCounter,
    );

    assert_eq!(app.update(0), Ok(UpdateOutcome::Started));
    assert_eq!(counter_of(&app), 0);

    // One second behind, with the default 16 ms step and cap of 2: the
    // fixed group runs exactly twice and consumes exactly 32 ms.
    assert_eq!(app.update(1000), Ok(UpdateOutcome::Ran));
    assert_eq!(counter_of(&app), 2);
    let consumed = app
        .core
        .runner
        .schedulers
        .iter()
        .find_map(|s| match s {
            Scheduler::Fixed(f) => Some(f.consumed_up_to_time()),
            _ => None,
        })
        .expect("no fixed scheduler registered");
    assert_eq!(consumed, 32);
}

#[test]
fn default_schedulers_swap_messages_once_per_tick() {
    let mut app: TestApp = App::new();
    app.add_plugins(TestPlugin::StagesByToken(DefaultStagePlugin));
    app.add_plugins(TestPlugin::Schedulers(DefaultSchedulersPlugin));
    app.create_message_type(PING);
    assert_eq!(app.send(PING, TestMsg::Ping(7)), 0);
    assert_eq!(app.iter_current(PING), &vec![TestMsg::Ping(7)]);

    // The first tick swaps: the sent message is now the stable previous
    // generation.
    assert_eq!(app.update(0), Ok(UpdateOutcome::Started));
    assert_eq!(app.iter_previous(PING), &vec![TestMsg::Ping(7)]);
    assert!(app.iter_current(PING).is_empty());

    // A tick with no sends leaves both generations empty.
    assert_eq!(app.update(16), Ok(UpdateOutcome::Ran));
    assert!(app.iter_previous(PING).is_empty());
    assert!(app.iter_current(PING).is_empty());
}

#[test]
fn resource_api_round_trip() {
    let mut app: TestApp = App::new();
    assert!(!app.has_resource(COUNTER));
    app.insert_resource(COUNTER, TestRes::Counter(3));
    assert!(app.has_resource(COUNTER));
    assert_eq!(app.resource(COUNTER), &TestRes::Counter(3));
    assert_eq!(app.get_resource_ref(COUNTER), Some(&TestRes::Counter(3)));
    let taken = app.resource_take(COUNTER);
    assert_eq!(taken, TestRes::Counter(3));
    assert!(!app.has_resource(COUNTER));
}

#[test]
fn message_ids_from_the_app_count_up() {
    let mut app: TestApp = App::new();
    app.create_message_type(PING);
    assert_eq!(app.send(PING, TestMsg::Ping(1)), 0);
    assert_eq!(app.send(PING, TestMsg::Ping(2)), 1);
    assert_eq!(
        app.iter_current(PING),
        &vec![TestMsg::Ping(1), TestMsg::Ping(2)]
    );
}

#[test]
fn parameter_descriptor_constructors_carry_their_key() {
    assert_eq!(Re::new(5).key, 5);
    assert_eq!(ReM::new(6).key, 6);
    assert_eq!(LoRe::new(7).key, 7);
    assert_eq!(LoReM::new(8).key, 8);
    assert_eq!(Msg::new(9).key, 9);
    assert_eq!(MsgM::new(10).key, 10);
}

#[test]
fn stage_tags_have_distinct_tokens() {
    let all = [
        FIRST_STAGE,
        PRE_UPDATE_STAGE,
        UPDATE_STAGE,
        FIXED_FIRST_STAGE,
        FIXED_UPDATE_STAGE,
        RENDER_FIRST_STAGE,
    ];
    for (i, a) in all.iter().enumerate() {
        for b in all.iter().skip(i + 1) {
            assert_ne!(a, b);
        }
    }
}

#[test]
fn mutable_storage_accessors_reach_the_same_stores() {
    let mut app: TestApp = App::new();
    app.resources_mut().insert(COUNTER, TestRes::Counter(9));
    assert_eq!(app.resources().get(COUNTER), Some(&TestRes::Counter(9)));
    app.local_resources_mut().insert(1, TestLocal::Handle(42));
    assert_eq!(app.local_resources().get(1), Some(&TestLocal::Handle(42)));
    app.messages_mut().register(PING);
    assert!(app.messages().contains(PING));
    assert_eq!(app.send(PING, TestMsg::Ping(3)), 0);
}

#[test]
fn resource_mut_mutates_in_place() {
    let mut app: TestApp = App::new();
    app.insert_resource(COUNTER, TestRes::Counter(1));
    match app.resource_mut(COUNTER) {
        TestRes::Counter(c) => *c += 41,
        _ => panic!("wrong resource kind"),
    }
    assert_eq!(app.resource(COUNTER), &TestRes::Counter(42));
    if let Some(TestRes::Counter(c)) = app.get_resource_mut(COUNTER) {
        *c -= 40;
    }
    assert_eq!(app.resource(COUNTER), &TestRes::Counter(2));
    assert!(app.get_resource_mut(READY_FLAG).is_none());
}

#[test]
fn empty_app_equals_a_new_one() {
    let app: TestApp = App::empty();
    assert_eq!(app.phase, AppPhase::WaitingForPlugins);
    assert!(app.plugins.is_empty());
    assert!(!app.has_resource(COUNTER));
}

#[test]
fn monotonic_clock_never_runs_backwards() {
    let clock = Clock::new();
    let first = clock.now_ms();
    let second = clock.now_ms();
    assert!(second >= first);
}
