//! The shared context handed to every piece of user logic: the game-loop
//! counters, and a ghost record of the order in which the runtime invoked
//! stage callbacks and state calls.

use vstd::prelude::*;
use crate::stage::TraceEntry;

verus! {

/// `a + b`, capped at `u64::MAX`.
pub open spec fn sat_add_u64(a: u64, b: nat) -> u64 {
    if a + b > u64::MAX {
        u64::MAX
    } else {
        (a + b) as u64
    }
}

/// The tick and frame counters of the running game loop.
///
/// Both counters only ever grow, and only the scheduler increments them:
/// every other piece of the runtime is bound by its contract to leave them
/// unchanged.
pub struct GameLoopContext {
    ticks: u64,
    frames: u64,
}

impl GameLoopContext {
    /// The number of fixed update ticks run so far.
    pub closed spec fn ticks_spec(self) -> u64 {
        self.ticks
    }

    /// The number of frames rendered so far.
    pub closed spec fn frames_spec(self) -> u64 {
        self.frames
    }

    /// Creates a game-loop context with both counters at zero.
    pub fn new() -> (context: Self)
        ensures
            context.ticks_spec() == 0,
            context.frames_spec() == 0,
    {
        Self { ticks: 0, frames: 0 }
    }

    /// Records one completed update tick; the counter saturates rather than
    /// wrapping.
    pub fn add_tick(&mut self)
        ensures
            final(self).ticks_spec() == sat_add_u64(old(self).ticks_spec(), 1),
            final(self).frames_spec() == old(self).frames_spec(),
    {
        if self.ticks < u64::MAX {
            self.ticks = self.ticks + 1;
        }
    }

    /// Returns the number of update ticks run so far.
    pub fn ticks(&self) -> (ticks: u64)
        ensures
            ticks == self.ticks_spec(),
    {
        self.ticks
    }

    /// Records one rendered frame; the counter saturates rather than
    /// wrapping.
    pub fn add_frame(&mut self)
        ensures
            final(self).frames_spec() == sat_add_u64(old(self).frames_spec(), 1),
            final(self).ticks_spec() == old(self).ticks_spec(),
    {
        if self.frames < u64::MAX {
            self.frames = self.frames + 1;
        }
    }

    /// Returns the number of frames rendered so far.
    pub fn frames(&self) -> (frames: u64)
        ensures
            frames == self.frames_spec(),
    {
        self.frames
    }
}

impl Default for GameLoopContext {
    /// The default game-loop context has both counters at zero.
    fn default() -> (context: Self)
        ensures
            context.ticks_spec() == 0,
            context.frames_spec() == 0,
    {
        Self::new()
    }
}

/// The central hub through which user logic reaches the engine's state.
///
/// Besides the game-loop counters it carries a ghost trace of every stage
/// callback and state call the runtime has made, in order; the scheduler
/// contracts are stated over that trace.
pub struct Context {
    pub game_loop: GameLoopContext,
    /// The ghost record of the runtime's calls into user logic; only the
    /// runtime itself — the scheduler and the stage-callback registry — can
    /// write it.
    pub(crate) trace: Ghost<Seq<TraceEntry>>,
}

impl Context {
    /// The update ticks counted so far.
    pub closed spec fn ticks(self) -> u64 {
        self.game_loop.ticks_spec()
    }

    /// The frames counted so far.
    pub closed spec fn frames(self) -> u64 {
        self.game_loop.frames_spec()
    }

    /// The ordered record of the runtime's calls into user logic.
    pub closed spec fn trace(self) -> Seq<TraceEntry> {
        self.trace@
    }

    /// Creates a fresh context: zero counters and an empty call record.
    pub fn new() -> (context: Self)
        ensures
            context.ticks() == 0,
            context.frames() == 0,
            context.trace() == Seq::<TraceEntry>::empty(),
    {
        Self { game_loop: GameLoopContext::new(), trace: Ghost(Seq::empty()) }
    }
}

impl Default for Context {
    /// The default context is the fresh context.
    fn default() -> (context: Self)
        ensures
            context.ticks() == 0,
            context.frames() == 0,
            context.trace() == Seq::<TraceEntry>::empty(),
    {
        Self::new()
    }
}

/// Within the runtime, a context's tick count is that of its game-loop
/// member.
pub(crate) broadcast proof fn lemma_context_ticks(context: Context)
    ensures
        #[trigger] context.ticks() == context.game_loop.ticks_spec(),
{
}

/// Within the runtime, a context's frame count is that of its game-loop
/// member.
pub(crate) broadcast proof fn lemma_context_frames(context: Context)
    ensures
        #[trigger] context.frames() == context.game_loop.frames_spec(),
{
}

/// Within the runtime, a context's call record is its ghost trace field.
pub(crate) broadcast proof fn lemma_context_trace(context: Context)
    ensures
        #[trigger] context.trace() == context.trace@,
{
}

/// Builds a [`Context`], together with the window-backend event loop that
/// drives it.
///
/// The runtime never looks inside the backend's event loop; it is carried as
/// an opaque value of type `W` and handed back by `build`.
pub struct ContextBuilder<W> {
    event_loop: Option<W>,
}

impl<W> ContextBuilder<W> {
    /// The backend event loop this builder will hand over on `build`.
    pub closed spec fn provided_event_loop(self) -> Option<W> {
        self.event_loop
    }

    /// Creates a builder around a window-backend event loop.
    pub fn with_event_loop(event_loop: W) -> (builder: Self)
        ensures
            builder.provided_event_loop() == Option::Some(event_loop),
    {
        Self { event_loop: Option::Some(event_loop) }
    }

    /// Creates a builder for a headless context, without a backend event
    /// loop; only `build_without_event_loop` can complete it.
    pub fn without_event_loop() -> (builder: Self)
        ensures
            builder.provided_event_loop() is None,
    {
        Self { event_loop: Option::None }
    }

    /// Consumes the builder and returns the built [`Context`] and the backend
    /// event loop.
    ///
    /// A builder without an event loop is a configuration error that aborts
    /// construction, so the caller must supply one.
    pub fn build(self) -> (result: (Context, W))
        requires
            self.provided_event_loop() is Some,
        ensures
            result.0.ticks() == 0,
            result.0.frames() == 0,
            result.1 == self.provided_event_loop().unwrap(),
    {
        let context = self.make_context();
        let event_loop = match self.event_loop {
            Option::Some(event_loop) => event_loop,
            Option::None => unreached(),
        };
        (context, event_loop)
    }

    /// Consumes the builder and returns a [`Context`] alone, for headless
    /// use.
    pub fn build_without_event_loop(self) -> (context: Context)
        ensures
            context.ticks() == 0,
            context.frames() == 0,
    {
        self.make_context()
    }

    fn make_context(&self) -> (context: Context)
        ensures
            context.ticks() == 0,
            context.frames() == 0,
            context.trace() == Seq::<TraceEntry>::empty(),
    {
        Context::new()
    }
}

} // verus!
