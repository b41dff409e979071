use std::cell::RefCell;
use std::rc::Rc;

use wolf_engine::{
    Context, EmptyState, FixedUpdateSchedulerBuilder, Scheduler, Stage, StageCallback,
    StageCallbacks, State, StateStack,
};

#[test]
fn should_have_default_settings() {
    let scheduler = FixedUpdateSchedulerBuilder::new().build();

    assert_eq!(scheduler.tps(), 120);
    assert_eq!(scheduler.max_update_time_ns(), 100_000_000);
}

#[test]
fn should_allow_custom_tps() {
    let scheduler = FixedUpdateSchedulerBuilder::new().with_tps(60).build();

    assert_eq!(scheduler.tps(), 60);
    assert_eq!(scheduler.tick_duration_ns(), 1_000_000_000 / 60);
}

#[test]
fn should_allow_custom_max_update_time() {
    let scheduler = FixedUpdateSchedulerBuilder::new()
        .with_max_update_time_ns(1_000_000_000)
        .build();

    assert_eq!(scheduler.max_update_time_ns(), 1_000_000_000);
}

#[derive(Clone)]
struct Recorder {
    stage: Stage,
    label: &'static str,
    log: Rc<RefCell<Vec<String>>>,
}

impl StageCallback for Recorder {
    fn call(&mut self, _context: &mut Context) {
        self.log
            .borrow_mut()
            .push(format!("{:?}:{}", self.stage, self.label));
    }
}

struct RecordingState {
    log: Rc<RefCell<Vec<String>>>,
}

impl State for RecordingState {
    fn update(
        &mut self,
        _context: &mut Context,
    ) -> Option<wolf_engine::Transition<RecordingState>> {
        self.log.borrow_mut().push("state:update".to_string());
        None
    }

    fn render(&mut self, _context: &mut Context) {
        self.log.borrow_mut().push("state:render".to_string());
    }
}

fn recording_fixture(
    log: &Rc<RefCell<Vec<String>>>,
) -> (StateStack<RecordingState>, StageCallbacks<Recorder>) {
    let mut state_stack = StateStack::new();
    state_stack.push(RecordingState { log: log.clone() });
    let mut stage_callbacks = StageCallbacks::new();
    for stage in [
        Stage::PreUpdate,
        Stage::Update,
        Stage::PostUpdate,
        Stage::PreRender,
        Stage::Render,
        Stage::PostRender,
    ] {
        for label in ["a", "b"] {
            stage_callbacks.add(
                stage,
                Recorder {
                    stage,
                    label,
                    log: log.clone(),
                },
            );
        }
    }
    (state_stack, stage_callbacks)
}

#[test]
fn tick_budget_runs_two_ticks_for_twenty_milliseconds() {
    let mut scheduler = FixedUpdateSchedulerBuilder::new().build();
    let mut context = Context::default();
    let mut state_stack: StateStack<EmptyState> = StateStack::new();
    let mut stage_callbacks: StageCallbacks<wolf_engine::EmptyCallback> = StageCallbacks::new();

    scheduler.advance(20_000_000, &mut context, &mut state_stack, &mut stage_callbacks);

    assert_eq!(context.game_loop.ticks(), 2);
    assert_eq!(scheduler.accumulator_ns(), 20_000_000 - 2 * 8_333_333);
}

#[test]
fn tick_budget_caps_a_full_second_at_twelve_ticks_and_drops_the_rest() {
    let mut scheduler = FixedUpdateSchedulerBuilder::new().build();
    let mut context = Context::default();
    let mut state_stack: StateStack<EmptyState> = StateStack::new();
    let mut stage_callbacks: StageCallbacks<wolf_engine::EmptyCallback> = StageCallbacks::new();

    scheduler.advance(1_000_000_000, &mut context, &mut state_stack, &mut stage_callbacks);

    assert_eq!(context.game_loop.ticks(), 12);
    assert_eq!(scheduler.accumulator_ns(), 0);
}

#[test]
fn zero_elapsed_time_runs_zero_ticks() {
    let mut scheduler = FixedUpdateSchedulerBuilder::new().build();
    let mut context = Context::default();
    let mut state_stack: StateStack<EmptyState> = StateStack::new();
    let mut stage_callbacks: StageCallbacks<wolf_engine::EmptyCallback> = StageCallbacks::new();

    scheduler.advance(0, &mut context, &mut state_stack, &mut stage_callbacks);

    assert_eq!(context.game_loop.ticks(), 0);
    assert_eq!(scheduler.accumulator_ns(), 0);
}

#[test]
fn update_stages_run_in_order_and_in_registration_order() {
    let log = Rc::new(RefCell::new(Vec::new()));
    let (mut state_stack, mut stage_callbacks) = recording_fixture(&log);
    let mut scheduler = FixedUpdateSchedulerBuilder::new().build();
    let mut context = Context::default();

    scheduler.advance(8_333_333, &mut context, &mut state_stack, &mut stage_callbacks);

    assert_eq!(
        *log.borrow(),
        vec![
            "PreUpdate:a",
            "PreUpdate:b",
            "Update:a",
            "Update:b",
            "state:update",
            "PostUpdate:a",
            "PostUpdate:b",
        ]
    );
    assert_eq!(context.game_loop.ticks(), 1);
}

#[test]
fn render_stages_run_in_order_and_count_one_frame() {
    let log = Rc::new(RefCell::new(Vec::new()));
    let (mut state_stack, mut stage_callbacks) = recording_fixture(&log);
    let mut scheduler = FixedUpdateSchedulerBuilder::new().build();
    let mut context = Context::default();

    scheduler.render(&mut context, &mut state_stack, &mut stage_callbacks);

    assert_eq!(
        *log.borrow(),
        vec![
            "PreRender:a",
            "PreRender:b",
            "Render:a",
            "Render:b",
            "state:render",
            "PostRender:a",
            "PostRender:b",
        ]
    );
    assert_eq!(context.game_loop.frames(), 1);
    assert_eq!(context.game_loop.ticks(), 0);
}
