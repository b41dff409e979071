//! Stage callbacks: ordered hooks bracketing the update and render work of
//! each scheduler pass.
//!
//! Callbacks are registered per [`Stage`] and run strictly in registration
//! order. Every invocation is recorded in the context's ghost trace, so the
//! contracts of [`StageCallbacks::run`] and of the schedulers pin down
//! exactly which hooks ran and in which order.

use vstd::prelude::*;
use crate::context::Context;

verus! {

broadcast use crate::context::lemma_context_ticks, crate::context::lemma_context_frames, crate::context::lemma_context_trace;

/// The extension points around a scheduler's update and render work, in the
/// fixed order they run.
#[derive(Clone, Copy, Debug, PartialEq, Eq, Structural)]
pub enum Stage {
    PreUpdate,
    Update,
    PostUpdate,
    PreRender,
    Render,
    PostRender,
}

/// One entry of the context's ghost call record.
pub enum TraceEntry {
    /// A stage callback was invoked, with its registration index.
    Callback { stage: Stage, index: int },
    /// The scheduler delegated one update to the state stack; the delegation
    /// is recorded whether or not a state was there to receive it (on an
    /// empty stack it is a no-op).
    StackUpdated,
    /// The scheduler delegated one render to the state stack; recorded like
    /// `StackUpdated` whether or not a state was there to receive it.
    StackRendered,
}

/// The trace left by running all `n` callbacks of `stage`, in registration
/// order.
pub open spec fn stage_trace(stage: Stage, n: nat) -> Seq<TraceEntry> {
    Seq::new(n, |i: int| TraceEntry::Callback { stage, index: i })
}

/// A hook that can be registered for a stage.
///
/// A callback may keep and mutate its own state, but it must leave the
/// game-loop counters (which only the scheduler advances) and the runtime's
/// call record untouched.
pub trait StageCallback: Sized {
    /// Runs the hook against the shared context.
    fn call(&mut self, context: &mut Context)
        ensures
            final(context).trace() == old(context).trace(),
            final(context).ticks() == old(context).ticks(),
            final(context).frames() == old(context).frames(),
    ;
}

/// A stage callback that does nothing; useful where a scheduler runs with no
/// hooks registered.
pub struct EmptyCallback;

impl StageCallback for EmptyCallback {
    fn call(&mut self, _context: &mut Context) {
    }
}

/// The ordered callbacks registered for each stage.
pub struct StageCallbacks<C> {
    pre_update: Vec<C>,
    update: Vec<C>,
    post_update: Vec<C>,
    pre_render: Vec<C>,
    render: Vec<C>,
    post_render: Vec<C>,
}

impl<C> StageCallbacks<C> {
    /// The number of callbacks registered for `stage`.
    pub closed spec fn count(self, stage: Stage) -> nat {
        match stage {
            Stage::PreUpdate => self.pre_update@.len(),
            Stage::Update => self.update@.len(),
            Stage::PostUpdate => self.post_update@.len(),
            Stage::PreRender => self.pre_render@.len(),
            Stage::Render => self.render@.len(),
            Stage::PostRender => self.post_render@.len(),
        }
    }

    /// Creates an empty callback registry.
    pub fn new() -> (callbacks: Self)
        ensures
            forall|stage: Stage| callbacks.count(stage) == 0,
    {
        Self {
            pre_update: Vec::new(),
            update: Vec::new(),
            post_update: Vec::new(),
            pre_render: Vec::new(),
            render: Vec::new(),
            post_render: Vec::new(),
        }
    }

    /// Registers `callback` for `stage`, after every callback already
    /// registered there. Registration is additive: nothing is ever removed.
    pub fn add(&mut self, stage: Stage, callback: C)
        ensures
            final(self).count(stage) == old(self).count(stage) + 1,
            forall|other: Stage| other != stage ==> final(self).count(other) == old(self).count(
                other,
            ),
    {
        match stage {
            Stage::PreUpdate => self.pre_update.push(callback),
            Stage::Update => self.update.push(callback),
            Stage::PostUpdate => self.post_update.push(callback),
            Stage::PreRender => self.pre_render.push(callback),
            Stage::Render => self.render.push(callback),
            Stage::PostRender => self.post_render.push(callback),
        }
    }
}

impl<C: StageCallback> StageCallbacks<C> {
    /// Runs every callback registered for `stage`, strictly in registration
    /// order, recording each invocation in the context's trace. No callback
    /// is skipped, and the counters stay untouched.
    pub fn run(&mut self, stage: Stage, context: &mut Context)
        ensures
            forall|other: Stage| final(self).count(other) == old(self).count(other),
            final(context).trace() == old(context).trace() + stage_trace(
                stage,
                old(self).count(stage),
            ),
            final(context).ticks() == old(context).ticks(),
            final(context).frames() == old(context).frames(),
    {
        match stage {
            Stage::PreUpdate => run_callbacks(&mut self.pre_update, stage, context),
            Stage::Update => run_callbacks(&mut self.update, stage, context),
            Stage::PostUpdate => run_callbacks(&mut self.post_update, stage, context),
            Stage::PreRender => run_callbacks(&mut self.pre_render, stage, context),
            Stage::Render => run_callbacks(&mut self.render, stage, context),
            Stage::PostRender => run_callbacks(&mut self.post_render, stage, context),
        }
    }
}

/// Runs all callbacks of one stage's vector in order, recording each one.
fn run_callbacks<C: StageCallback>(callbacks: &mut Vec<C>, stage: Stage, context: &mut Context)
    ensures
        final(callbacks)@.len() == old(callbacks)@.len(),
        final(context).trace() == old(context).trace() + stage_trace(
            stage,
            old(callbacks)@.len(),
        ),
        final(context).ticks() == old(context).ticks(),
        final(context).frames() == old(context).frames(),
{
    let ghost trace0 = context.trace();
    let mut i: usize = 0;
    while i < callbacks.len()
        invariant
            i <= callbacks@.len(),
            callbacks@.len() == old(callbacks)@.len(),
            context.trace() == trace0 + stage_trace(stage, i as nat),
            context.ticks() == old(context).ticks(),
            context.frames() == old(context).frames(),
        decreases callbacks@.len() - i,
    {
        context.trace = Ghost(
            context.trace@.push(TraceEntry::Callback { stage, index: i as int }),
        );
        let callback = &mut callbacks[i];
        callback.call(context);
        i = i + 1;
        proof {
            assert(context.trace() =~= trace0 + stage_trace(stage, i as nat));
        }
    }
    proof {
        assert(context.trace() =~= trace0 + stage_trace(stage, old(callbacks)@.len()));
    }
}

} // verus!
