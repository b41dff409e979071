//! The engine: a context, a scheduler, a stage-callback registry and a state
//! stack, composed by a builder and driven by an engine core until the state
//! stack is empty.

use vstd::prelude::*;
use crate::context::Context;
use crate::schedulers::{FixedUpdateScheduler, Scheduler};
use crate::stage::{StageCallback, StageCallbacks};
use crate::state::{State, StateStack};

verus! {

/// The main-loop routine an engine runs with.
///
/// The engine hands its parts to the core, which owns the control flow from
/// then on; a custom core can hand that control to a windowing backend that
/// insists on running the main loop itself.
pub trait EngineCore<S: State, C: StageCallback, Sch: Scheduler<S, C>>: Sized {
    /// Consumes the engine's parts and runs the main loop.
    fn run_core(
        self,
        context: Context,
        scheduler: Sch,
        state_stack: StateStack<S>,
        stage_callbacks: StageCallbacks<C>,
    );
}

/// The main loop, bounded by a pass budget: alternate one scheduler update
/// pass and one render pass until the state stack is empty, or until
/// `max_passes` passes have run.
///
/// Emptiness is checked after every pass, so the loop ends as soon as a
/// transition — a `Quit`, or the last `Pop` — has emptied the stack; the
/// returned budget proves it: whenever any budget is left over, the loop
/// exited because the stack was empty.
pub fn run_engine_passes<S: State, C: StageCallback, Sch: Scheduler<S, C>>(
    context: &mut Context,
    scheduler: &mut Sch,
    state_stack: &mut StateStack<S>,
    stage_callbacks: &mut StageCallbacks<C>,
    max_passes: u64,
) -> (remaining_passes: u64)
    ensures
        remaining_passes <= max_passes,
        remaining_passes > 0 ==> final(state_stack)@.len() == 0,
{
    let mut remaining_passes: u64 = max_passes;
    while remaining_passes > 0 && !state_stack.is_empty()
        invariant
            remaining_passes <= max_passes,
        decreases remaining_passes,
    {
        scheduler.update(context, state_stack, stage_callbacks);
        scheduler.render(context, state_stack, stage_callbacks);
        remaining_passes = remaining_passes - 1;
    }
    remaining_passes
}

/// The canonical main loop: alternate one scheduler update pass and one
/// render pass until the state stack is empty.
///
/// The pass budget gives the loop its termination measure; its bound outlasts
/// any real run by many human lifetimes.
pub fn run_engine<S: State, C: StageCallback, Sch: Scheduler<S, C>>(
    context: Context,
    scheduler: Sch,
    state_stack: StateStack<S>,
    stage_callbacks: StageCallbacks<C>,
)
{
    let mut context = context;
    let mut scheduler = scheduler;
    let mut state_stack = state_stack;
    let mut stage_callbacks = stage_callbacks;
    let _ = run_engine_passes(
        &mut context,
        &mut scheduler,
        &mut state_stack,
        &mut stage_callbacks,
        u64::MAX,
    );
}

/// The default engine core, which runs [`run_engine`].
pub struct DefaultEngineCore;

impl<S: State, C: StageCallback, Sch: Scheduler<S, C>> EngineCore<S, C, Sch> for DefaultEngineCore {
    fn run_core(
        self,
        context: Context,
        scheduler: Sch,
        state_stack: StateStack<S>,
        stage_callbacks: StageCallbacks<C>,
    ) {
        run_engine(context, scheduler, state_stack, stage_callbacks);
    }
}

/// The composed engine: its context, scheduler, state stack and stage
/// callbacks, plus the core that will drive them.
///
/// The parts are public so that an application can register stage callbacks
/// or inspect the context before calling [`Engine::run`].
pub struct Engine<S, C, Sch, Core> {
    pub context: Context,
    pub scheduler: Sch,
    pub state_stack: StateStack<S>,
    pub stage_callbacks: StageCallbacks<C>,
    pub engine_core: Core,
}

impl<S: State, C: StageCallback, Sch: Scheduler<S, C>, Core: EngineCore<S, C, Sch>> Engine<
    S,
    C,
    Sch,
    Core,
> {
    /// Pushes the game's starting state and hands the engine to its core,
    /// blocking until the main loop reaches the empty-stack terminal
    /// condition.
    pub fn run(self, initial_state: S) {
        let Engine { context, scheduler, mut state_stack, stage_callbacks, engine_core } = self;
        state_stack.push(initial_state);
        engine_core.run_core(context, scheduler, state_stack, stage_callbacks);
    }
}

/// Builds and customizes an [`Engine`].
pub struct EngineBuilder<Sch, Core> {
    scheduler: Sch,
    engine_core: Core,
}

impl<Sch, Core> EngineBuilder<Sch, Core> {
    /// The scheduler the built engine will use.
    pub closed spec fn scheduler_spec(self) -> Sch {
        self.scheduler
    }

    /// The core the built engine will run with.
    pub closed spec fn engine_core_spec(self) -> Core {
        self.engine_core
    }

    /// Returns the scheduler this builder currently carries.
    pub fn scheduler(&self) -> (scheduler: &Sch)
        ensures
            *scheduler == self.scheduler_spec(),
    {
        &self.scheduler
    }

    /// Replaces the scheduler the engine will use.
    pub fn with_scheduler<Sch2>(self, scheduler: Sch2) -> (builder: EngineBuilder<Sch2, Core>)
        ensures
            builder.scheduler_spec() == scheduler,
            builder.engine_core_spec() == self.engine_core_spec(),
    {
        EngineBuilder { scheduler, engine_core: self.engine_core }
    }

    /// Replaces the core the engine will run with.
    pub fn with_engine_core<Core2>(self, engine_core: Core2) -> (builder: EngineBuilder<
        Sch,
        Core2,
    >)
        ensures
            builder.scheduler_spec() == self.scheduler_spec(),
            builder.engine_core_spec() == engine_core,
    {
        EngineBuilder { scheduler: self.scheduler, engine_core }
    }

    /// Consumes the builder and composes the engine around `context`, with an
    /// empty state stack and no stage callbacks registered yet.
    pub fn build<S, C>(self, context: Context) -> (engine: Engine<S, C, Sch, Core>)
        ensures
            engine.context == context,
            engine.scheduler == self.scheduler_spec(),
            engine.engine_core == self.engine_core_spec(),
            engine.state_stack@ == Seq::<S>::empty(),
            forall|stage: crate::stage::Stage| engine.stage_callbacks.count(stage) == 0,
    {
        Engine {
            context,
            scheduler: self.scheduler,
            state_stack: StateStack::new(),
            stage_callbacks: StageCallbacks::new(),
            engine_core: self.engine_core,
        }
    }
}

impl EngineBuilder<FixedUpdateScheduler, DefaultEngineCore> {
    /// Creates a builder with the default configuration: the fixed-update
    /// scheduler with its default settings, run by the default core.
    pub fn new() -> (builder: Self)
        ensures
            builder.scheduler_spec().tps_spec() == 120,
            builder.scheduler_spec().tick_duration_ns_spec() == 8333333,
            builder.scheduler_spec().max_update_time_ns_spec() == 100000000,
            builder.scheduler_spec().accumulator_ns_spec() == 0,
            builder.scheduler_spec().previous_spec() is None,
            builder.engine_core_spec() == DefaultEngineCore,
    {
        EngineBuilder { scheduler: FixedUpdateScheduler::default(), engine_core: DefaultEngineCore }
    }
}

impl Default for EngineBuilder<FixedUpdateScheduler, DefaultEngineCore> {
    /// The default builder carries the default scheduler and core.
    fn default() -> (builder: Self)
        ensures
            builder.scheduler_spec().tps_spec() == 120,
            builder.scheduler_spec().tick_duration_ns_spec() == 8333333,
            builder.scheduler_spec().max_update_time_ns_spec() == 100000000,
            builder.scheduler_spec().accumulator_ns_spec() == 0,
            builder.scheduler_spec().previous_spec() is None,
            builder.engine_core_spec() == DefaultEngineCore,
    {
        Self::new()
    }
}

/// An engine driven directly by one game loop.
pub struct WolfEngine<L> {
    game_loop: L,
}

impl<L> WolfEngine<L> {
    /// The game loop this engine runs.
    pub closed spec fn game_loop_spec(self) -> L {
        self.game_loop
    }

    /// Returns the game loop this engine runs.
    pub fn game_loop(&self) -> (game_loop: &L)
        ensures
            *game_loop == self.game_loop_spec(),
    {
        &self.game_loop
    }
}

/// Builds a [`WolfEngine`] around a chosen game loop.
pub struct WolfEngineBuilder<L> {
    engine: WolfEngine<L>,
}

impl<L> WolfEngineBuilder<L> {
    /// The engine this builder has assembled so far.
    pub closed spec fn engine_spec(self) -> WolfEngine<L> {
        self.engine
    }

    /// Consumes the builder and returns the assembled engine.
    pub fn build(self) -> (engine: WolfEngine<L>)
        ensures
            engine == self.engine_spec(),
    {
        self.engine
    }
}

impl WolfEngineBuilder<FixedUpdateScheduler> {
    /// Creates a builder whose engine runs the default fixed-update game
    /// loop: 120 ticks per second with a 100ms update-time budget.
    pub fn with_default_game_loop() -> (builder: Self)
        ensures
            builder.engine_spec().game_loop_spec().tps_spec() == 120,
            builder.engine_spec().game_loop_spec().tick_duration_ns_spec() == 8333333,
            builder.engine_spec().game_loop_spec().max_update_time_ns_spec() == 100000000,
            builder.engine_spec().game_loop_spec().accumulator_ns_spec() == 0,
            builder.engine_spec().game_loop_spec().previous_spec() is None,
    {
        let game_loop = FixedUpdateScheduler::default();
        let engine = WolfEngine { game_loop };
        Self { engine }
    }
}

} // verus!
