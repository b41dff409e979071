use std::cell::RefCell;
use std::collections::VecDeque;
use std::rc::Rc;

use wolf_engine::{
    run_engine_passes, Context, EmptyCallback, EmptyState, Engine, EngineBuilder, EngineCore,
    FixedUpdateScheduler, Scheduler, StageCallback, StageCallbacks, State, StateStack, Transition,
};

struct QuitState {
    updates: Rc<RefCell<u32>>,
    renders: Rc<RefCell<u32>>,
}

impl State for QuitState {
    fn update(&mut self, _context: &mut Context) -> Option<Transition<QuitState>> {
        *self.updates.borrow_mut() += 1;
        Some(Transition::Quit)
    }

    fn render(&mut self, _context: &mut Context) {
        *self.renders.borrow_mut() += 1;
    }
}

#[test]
fn should_run_the_state() {
    let updates = Rc::new(RefCell::new(0u32));
    let renders = Rc::new(RefCell::new(0u32));
    let state = QuitState {
        updates: updates.clone(),
        renders: renders.clone(),
    };
    let context = Context::default();
    let engine: Engine<QuitState, EmptyCallback, _, _> = EngineBuilder::new().build(context);

    engine.run(state);

    assert!(*updates.borrow() >= 1, "The state was never updated");
    assert!(*renders.borrow() >= 1, "The state was never rendered");
}

struct CountingScheduler {
    update_calls: Rc<RefCell<u32>>,
}

impl<S: State, C: StageCallback> Scheduler<S, C> for CountingScheduler {
    fn update(
        &mut self,
        context: &mut Context,
        state_stack: &mut StateStack<S>,
        _stage_callbacks: &mut StageCallbacks<C>,
    ) {
        *self.update_calls.borrow_mut() += 1;
        if *self.update_calls.borrow() == 1 {
            state_stack.update(context);
        } else {
            state_stack.apply_transition(Some(Transition::Quit));
        }
    }

    fn render(
        &mut self,
        _context: &mut Context,
        _state_stack: &mut StateStack<S>,
        _stage_callbacks: &mut StageCallbacks<C>,
    ) {
    }
}

#[test]
fn should_allow_custom_states() {
    let context = Context::default();
    let update_calls = Rc::new(RefCell::new(0u32));
    let scheduler = CountingScheduler {
        update_calls: update_calls.clone(),
    };

    let engine: Engine<EmptyState, EmptyCallback, _, _> = EngineBuilder::new()
        .with_scheduler(scheduler)
        .build(context);
    engine.run(EmptyState);

    assert!(
        *update_calls.borrow() >= 1,
        "The custom scheduler was not used"
    );
}

struct FlagCore {
    has_ran: Rc<RefCell<bool>>,
}

impl<S: State, C: StageCallback, Sch: Scheduler<S, C>> EngineCore<S, C, Sch> for FlagCore {
    fn run_core(
        self,
        _context: Context,
        _scheduler: Sch,
        _state_stack: StateStack<S>,
        _stage_callbacks: StageCallbacks<C>,
    ) {
        *self.has_ran.borrow_mut() = true;
    }
}

#[test]
fn should_set_engine_core() {
    let has_ran_custom_core = Rc::new(RefCell::new(false));
    let context = Context::default();
    let engine: Engine<EmptyState, EmptyCallback, FixedUpdateScheduler, FlagCore> =
        EngineBuilder::new()
            .with_engine_core(FlagCore {
                has_ran: has_ran_custom_core.clone(),
            })
            .build(context);

    engine.run(EmptyState);

    assert!(
        *has_ran_custom_core.borrow(),
        "The custom engine core was not used"
    );
}

struct Scripted {
    name: &'static str,
    script: Rc<RefCell<VecDeque<Transition<Scripted>>>>,
    log: Rc<RefCell<Vec<&'static str>>>,
}

impl State for Scripted {
    fn update(&mut self, _context: &mut Context) -> Option<Transition<Scripted>> {
        self.log.borrow_mut().push(self.name);
        self.script.borrow_mut().pop_front()
    }

    fn render(&mut self, _context: &mut Context) {}
}

#[test]
fn stack_transitions_follow_push_pop_and_quit() {
    let log: Rc<RefCell<Vec<&'static str>>> = Rc::new(RefCell::new(Vec::new()));
    let script = Rc::new(RefCell::new(VecDeque::new()));
    let state_b = Scripted {
        name: "b",
        script: script.clone(),
        log: log.clone(),
    };
    script
        .borrow_mut()
        .extend([Transition::Push(state_b), Transition::Pop, Transition::Quit]);
    let state_a = Scripted {
        name: "a",
        script: script.clone(),
        log: log.clone(),
    };

    let mut context = Context::default();
    let mut stack = StateStack::new();
    stack.push(state_a);
    assert_eq!(stack.len(), 1);

    stack.update(&mut context);
    assert_eq!(stack.len(), 2, "Push(b) must leave the stack [a, b]");

    stack.update(&mut context);
    assert_eq!(stack.len(), 1, "Pop must leave the stack [a]");

    stack.update(&mut context);
    assert!(stack.is_empty(), "Quit must empty the stack");

    assert_eq!(
        *log.borrow(),
        vec!["a", "b", "a"],
        "The active state must always be the top of the stack"
    );
}

struct QuitScheduler;

impl<S: State, C: StageCallback> Scheduler<S, C> for QuitScheduler {
    fn update(
        &mut self,
        _context: &mut Context,
        state_stack: &mut StateStack<S>,
        _stage_callbacks: &mut StageCallbacks<C>,
    ) {
        state_stack.apply_transition(Some(Transition::Quit));
    }

    fn render(
        &mut self,
        _context: &mut Context,
        _state_stack: &mut StateStack<S>,
        _stage_callbacks: &mut StageCallbacks<C>,
    ) {
    }
}

#[test]
fn the_main_loop_exits_once_the_stack_is_empty() {
    let mut context = Context::default();
    let mut scheduler = QuitScheduler;
    let mut state_stack: StateStack<EmptyState> = StateStack::new();
    state_stack.push(EmptyState);
    let mut stage_callbacks: StageCallbacks<EmptyCallback> = StageCallbacks::new();

    let remaining = run_engine_passes(
        &mut context,
        &mut scheduler,
        &mut state_stack,
        &mut stage_callbacks,
        10,
    );

    assert!(remaining > 0, "The loop must exit on emptiness, not on the budget");
    assert!(state_stack.is_empty());
}

#[test]
fn popping_an_empty_stack_is_a_no_op() {
    let mut stack: StateStack<EmptyState> = StateStack::new();
    stack.apply_transition(Some(Transition::Pop));
    assert!(stack.is_empty());

    let mut context = Context::default();
    stack.update(&mut context);
    assert!(stack.is_empty());
}
