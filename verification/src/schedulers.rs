//! Schedulers decide when the active state's update and render logic runs.
//!
//! Every scheduler brackets the work it schedules with the registered stage
//! callbacks, in the fixed stage order; the [`Scheduler`] trait contract
//! holds each implementation to that bracketing. The canonical
//! [`FixedUpdateScheduler`] runs accumulator-based fixed-timestep update
//! ticks and an unthrottled render pass; `FixedUpdateScheduler::advance`
//! carries the exact tick-budget law.

use vstd::prelude::*;
use vstd::arithmetic::div_mod::{lemma_fundamental_div_mod, lemma_mod_bound};
use vstd::arithmetic::mul::{
    lemma_mul_inequality,
    lemma_mul_is_commutative,
    lemma_mul_is_distributive_add_other_way,
};
use std::time::Instant;
use crate::context::{sat_add_u64, Context};
use crate::stage::{stage_trace, Stage, StageCallback, StageCallbacks, TraceEntry};
use crate::state::{stack_steps, render_step, State, StateStack};

verus! {

broadcast use crate::context::lemma_context_ticks, crate::context::lemma_context_frames, crate::context::lemma_context_trace;

/// Relies on `std::time::Instant`: an opaque reading of the monotonic clock.
#[verifier::external_type_specification]
#[verifier::external_body]
pub struct ExInstant(Instant);

/// Relies on `std::time::Instant::now`: reads the monotonic clock; nothing is
/// assumed about the value it returns.
pub assume_specification[ Instant::now ]() -> (now: Instant);

/// Relies on `std::time::Instant::saturating_duration_since`: the time from
/// `earlier` to `later`, or zero if `earlier` is the later of the two;
/// nothing is assumed about the value it returns.
pub assume_specification[ Instant::saturating_duration_since ](
    later: &Instant,
    earlier: Instant,
) -> (duration: core::time::Duration);

/// Relies on `core::time::Duration::as_nanos`: the whole number of
/// nanoseconds the duration spans; nothing is assumed about the value it
/// returns.
pub assume_specification[ core::time::Duration::as_nanos ](
    duration: &core::time::Duration,
) -> (nanos: u128);

/// The trace left by one full update tick: the pre-update, update and
/// post-update callbacks in stage order, bracketing the delegation of one
/// update to the state stack.
pub open spec fn update_burst(pre_count: nat, update_count: nat, post_count: nat) -> Seq<
    TraceEntry,
> {
    stage_trace(Stage::PreUpdate, pre_count) + stage_trace(Stage::Update, update_count) + seq![
        TraceEntry::StackUpdated,
    ] + stage_trace(Stage::PostUpdate, post_count)
}

/// The trace left by one render pass: the pre-render, render and post-render
/// callbacks in stage order, bracketing the delegation of one render to the
/// state stack.
pub open spec fn render_burst(pre_count: nat, render_count: nat, post_count: nat) -> Seq<
    TraceEntry,
> {
    stage_trace(Stage::PreRender, pre_count) + stage_trace(Stage::Render, render_count) + seq![
        TraceEntry::StackRendered,
    ] + stage_trace(Stage::PostRender, post_count)
}

/// `burst` repeated `k` times, in order.
pub open spec fn repeat_trace(burst: Seq<TraceEntry>, k: nat) -> Seq<TraceEntry>
    decreases k,
{
    if k == 0 {
        Seq::empty()
    } else {
        repeat_trace(burst, (k - 1) as nat) + burst
    }
}

/// Decides when the game and engine state is updated and when frames are
/// rendered.
///
/// The contracts hold every implementation to the bracketing law: whatever
/// its timing algorithm, an update pass runs some number of complete update
/// ticks — each `PreUpdate`, `Update`, state update, `PostUpdate`, counted on
/// the tick counter — and a render pass runs at most one complete render
/// bracket, counted on the frame counter.
pub trait Scheduler<S: State, C: StageCallback>: Sized {
    /// Runs zero or more complete update ticks.
    fn update(
        &mut self,
        context: &mut Context,
        state_stack: &mut StateStack<S>,
        stage_callbacks: &mut StageCallbacks<C>,
    )
        ensures
            forall|stage: Stage|
                final(stage_callbacks).count(stage) == old(stage_callbacks).count(stage),
            final(context).frames() == old(context).frames(),
            exists|k: nat|
                {
                    &&& final(context).trace() == old(context).trace() + #[trigger] repeat_trace(
                        update_burst(
                            old(stage_callbacks).count(Stage::PreUpdate),
                            old(stage_callbacks).count(Stage::Update),
                            old(stage_callbacks).count(Stage::PostUpdate),
                        ),
                        k,
                    )
                    &&& final(context).ticks() == sat_add_u64(old(context).ticks(), k)
                    &&& stack_steps(old(state_stack)@, final(state_stack)@, k)
                },
    ;

    /// Runs at most one complete render pass.
    fn render(
        &mut self,
        context: &mut Context,
        state_stack: &mut StateStack<S>,
        stage_callbacks: &mut StageCallbacks<C>,
    )
        ensures
            forall|stage: Stage|
                final(stage_callbacks).count(stage) == old(stage_callbacks).count(stage),
            final(context).ticks() == old(context).ticks(),
            render_step(old(state_stack)@, final(state_stack)@),
            exists|k: nat|
                {
                    &&& k <= 1
                    &&& final(context).trace() == old(context).trace() + #[trigger] repeat_trace(
                        render_burst(
                            old(stage_callbacks).count(Stage::PreRender),
                            old(stage_callbacks).count(Stage::Render),
                            old(stage_callbacks).count(Stage::PostRender),
                        ),
                        k,
                    )
                    &&& final(context).frames() == sat_add_u64(old(context).frames(), k)
                },
    ;
}

/// The number of ticks a fixed-update pass runs when `acc_total` nanoseconds
/// have accumulated: every full tick duration accumulated, capped by the
/// number of full tick durations in the update-time budget.
pub open spec fn ticks_run(acc_total: u64, tick_duration_ns: u64, max_update_time_ns: u64) -> nat {
    let wanted = acc_total as int / tick_duration_ns as int;
    let budget = max_update_time_ns as int / tick_duration_ns as int;
    if wanted <= budget {
        wanted as nat
    } else {
        budget as nat
    }
}

/// The accumulator left after a fixed-update pass: the sub-tick remainder
/// when every accumulated tick fit in the budget, and zero — the remainder is
/// dropped, not carried forward — when the budget cut the pass short.
pub open spec fn remaining_ns(acc_total: u64, tick_duration_ns: u64, max_update_time_ns: u64) -> u64 {
    let wanted = acc_total as int / tick_duration_ns as int;
    let budget = max_update_time_ns as int / tick_duration_ns as int;
    if wanted <= budget {
        (acc_total as int % tick_duration_ns as int) as u64
    } else {
        0u64
    }
}

/// The canonical fixed-timestep scheduler.
///
/// Each update pass measures the wall time elapsed since the previous pass,
/// adds it to an accumulator, and runs one complete update tick per full tick
/// duration accumulated — at most as many ticks as fit in the update-time
/// budget, dropping the rest of the accumulator when that cap is hit, so a
/// long stall never snowballs into an unbounded catch-up. Render passes are
/// unthrottled: each one renders exactly one frame.
pub struct FixedUpdateScheduler {
    tps: u32,
    tick_duration_ns: u64,
    max_update_time_ns: u64,
    accumulator_ns: u64,
    previous: Option<Instant>,
}

impl FixedUpdateScheduler {
    /// The configured ticks per second.
    pub closed spec fn tps_spec(self) -> u32 {
        self.tps
    }

    /// The duration of one tick in nanoseconds.
    pub closed spec fn tick_duration_ns_spec(self) -> u64 {
        self.tick_duration_ns
    }

    /// The per-pass update-time budget in nanoseconds.
    pub closed spec fn max_update_time_ns_spec(self) -> u64 {
        self.max_update_time_ns
    }

    /// The unconsumed simulation time carried by the accumulator.
    pub closed spec fn accumulator_ns_spec(self) -> u64 {
        self.accumulator_ns
    }

    /// The clock reading of the previous update pass, if one has run.
    pub closed spec fn previous_spec(self) -> Option<Instant> {
        self.previous
    }

    /// Returns the configured ticks per second.
    pub fn tps(&self) -> (tps: u32)
        ensures
            tps == self.tps_spec(),
    {
        self.tps
    }

    /// Returns the duration of one tick in nanoseconds.
    pub fn tick_duration_ns(&self) -> (duration: u64)
        ensures
            duration == self.tick_duration_ns_spec(),
    {
        self.tick_duration_ns
    }

    /// Returns the per-pass update-time budget in nanoseconds.
    pub fn max_update_time_ns(&self) -> (duration: u64)
        ensures
            duration == self.max_update_time_ns_spec(),
    {
        self.max_update_time_ns
    }

    /// Returns the unconsumed simulation time currently accumulated, in
    /// nanoseconds.
    pub fn accumulator_ns(&self) -> (accumulated: u64)
        ensures
            accumulated == self.accumulator_ns_spec(),
    {
        self.accumulator_ns
    }

    /// Adds `elapsed_ns` of wall time to the accumulator and runs the tick
    /// burst it pays for: one complete update tick per full tick duration
    /// accumulated, capped by the update-time budget.
    ///
    /// This is the exact tick-budget law: the pass runs
    /// `min(acc / tick, max_update_time / tick)` ticks; when the cap is not
    /// hit the sub-tick remainder stays accumulated, and when it is hit the
    /// remainder is dropped.
    pub fn advance<S: State, C: StageCallback>(
        &mut self,
        elapsed_ns: u64,
        context: &mut Context,
        state_stack: &mut StateStack<S>,
        stage_callbacks: &mut StageCallbacks<C>,
    )
        requires
            old(self).tick_duration_ns_spec() > 0,
        ensures
            final(self).tps_spec() == old(self).tps_spec(),
            final(self).tick_duration_ns_spec() == old(self).tick_duration_ns_spec(),
            final(self).max_update_time_ns_spec() == old(self).max_update_time_ns_spec(),
            final(self).previous_spec() == old(self).previous_spec(),
            final(self).accumulator_ns_spec() == remaining_ns(
                sat_add_u64(old(self).accumulator_ns_spec(), elapsed_ns as nat),
                old(self).tick_duration_ns_spec(),
                old(self).max_update_time_ns_spec(),
            ),
            forall|stage: Stage|
                final(stage_callbacks).count(stage) == old(stage_callbacks).count(stage),
            final(context).frames() == old(context).frames(),
            final(context).ticks() == sat_add_u64(
                old(context).ticks(),
                ticks_run(
                    sat_add_u64(old(self).accumulator_ns_spec(), elapsed_ns as nat),
                    old(self).tick_duration_ns_spec(),
                    old(self).max_update_time_ns_spec(),
                ),
            ),
            final(context).trace() == old(context).trace() + repeat_trace(
                update_burst(
                    old(stage_callbacks).count(Stage::PreUpdate),
                    old(stage_callbacks).count(Stage::Update),
                    old(stage_callbacks).count(Stage::PostUpdate),
                ),
                ticks_run(
                    sat_add_u64(old(self).accumulator_ns_spec(), elapsed_ns as nat),
                    old(self).tick_duration_ns_spec(),
                    old(self).max_update_time_ns_spec(),
                ),
            ),
            stack_steps(
                old(state_stack)@,
                final(state_stack)@,
                ticks_run(
                    sat_add_u64(old(self).accumulator_ns_spec(), elapsed_ns as nat),
                    old(self).tick_duration_ns_spec(),
                    old(self).max_update_time_ns_spec(),
                ),
            ),
    {
        let tick = self.tick_duration_ns;
        if elapsed_ns <= u64::MAX - self.accumulator_ns {
            self.accumulator_ns = self.accumulator_ns + elapsed_ns;
        } else {
            self.accumulator_ns = u64::MAX;
        }
        let ghost acc_total = self.accumulator_ns;
        let wanted_ticks: u64 = self.accumulator_ns / tick;
        let budget_ticks: u64 = self.max_update_time_ns / tick;
        let pass_ticks: u64 = if wanted_ticks <= budget_ticks {
            wanted_ticks
        } else {
            budget_ticks
        };
        let ghost burst = update_burst(
            stage_callbacks.count(Stage::PreUpdate),
            stage_callbacks.count(Stage::Update),
            stage_callbacks.count(Stage::PostUpdate),
        );
        let ghost trace0 = context.trace();
        let ghost ticks0 = context.ticks();
        let ghost frames0 = context.frames();
        let ghost stack0 = state_stack@;
        proof {
            assert(pass_ticks == ticks_run(
                acc_total,
                self.tick_duration_ns,
                self.max_update_time_ns,
            ));
            assert(trace0 + repeat_trace(burst, 0) =~= trace0);
            lemma_fundamental_div_mod(acc_total as int, tick as int);
            lemma_mod_bound(acc_total as int, tick as int);
            lemma_mul_inequality(pass_ticks as int, wanted_ticks as int, tick as int);
            lemma_mul_is_commutative(tick as int, wanted_ticks as int);
            assert(pass_ticks * tick <= acc_total);
        }
        let mut i: u64 = 0;
        while i < pass_ticks
            invariant
                i <= pass_ticks,
                tick > 0,
                tick == self.tick_duration_ns,
                pass_ticks * tick <= acc_total,
                self.tps == old(self).tps_spec(),
                self.tick_duration_ns == old(self).tick_duration_ns_spec(),
                self.max_update_time_ns == old(self).max_update_time_ns_spec(),
                self.previous == old(self).previous_spec(),
                self.accumulator_ns == acc_total - i * tick,
                forall|stage: Stage|
                    stage_callbacks.count(stage) == old(stage_callbacks).count(stage),
                burst == update_burst(
                    old(stage_callbacks).count(Stage::PreUpdate),
                    old(stage_callbacks).count(Stage::Update),
                    old(stage_callbacks).count(Stage::PostUpdate),
                ),
                context.trace() == trace0 + repeat_trace(burst, i as nat),
                context.ticks() == sat_add_u64(ticks0, i as nat),
                context.frames() == frames0,
                stack_steps(stack0, state_stack@, i as nat),
            decreases pass_ticks - i,
        {
            proof {
                lemma_mul_inequality(i + 1, pass_ticks as int, tick as int);
                lemma_mul_is_distributive_add_other_way(tick as int, i as int, 1);
                assert((i + 1) * tick == i * tick + tick);
                assert(self.accumulator_ns >= tick);
            }
            let ghost trace_before = context.trace();
            let ghost stack_before = state_stack@;
            stage_callbacks.run(Stage::PreUpdate, context);
            stage_callbacks.run(Stage::Update, context);
            state_stack.update(context);
            context.trace = Ghost(context.trace@.push(TraceEntry::StackUpdated));
            stage_callbacks.run(Stage::PostUpdate, context);
            self.accumulator_ns = self.accumulator_ns - tick;
            context.game_loop.add_tick();
            proof {
                assert(context.trace() =~= trace_before + burst);
                assert(repeat_trace(burst, (i + 1) as nat) == repeat_trace(burst, i as nat)
                    + burst);
                assert(context.trace() =~= trace0 + repeat_trace(burst, (i + 1) as nat));
                crate::state::lemma_stack_steps_extend(
                    stack0,
                    stack_before,
                    state_stack@,
                    i as nat,
                );
            }
            i = i + 1;
        }
        if wanted_ticks > budget_ticks {
            self.accumulator_ns = 0;
        } else {
            proof {
                lemma_fundamental_div_mod(acc_total as int, tick as int);
                lemma_mul_is_commutative(tick as int, wanted_ticks as int);
                assert(self.accumulator_ns == acc_total as int % tick as int);
            }
        }
    }
}

impl Default for FixedUpdateScheduler {
    /// The default scheduler runs 120 ticks per second with a 100ms
    /// update-time budget.
    fn default() -> (scheduler: Self)
        ensures
            scheduler.tps_spec() == 120,
            scheduler.tick_duration_ns_spec() == 8333333,
            scheduler.max_update_time_ns_spec() == 100000000,
            scheduler.accumulator_ns_spec() == 0,
            scheduler.previous_spec() is None,
    {
        proof {
            vstd::arithmetic::div_mod::lemma_fundamental_div_mod_converse(
                1000000000,
                120,
                8333333,
                40,
            );
        }
        FixedUpdateSchedulerBuilder::new().build()
    }
}

impl<S: State, C: StageCallback> Scheduler<S, C> for FixedUpdateScheduler {
    /// Measures the wall time since the previous pass on the monotonic clock
    /// and hands it to `advance`; the first pass measures nothing and runs
    /// zero ticks.
    fn update(
        &mut self,
        context: &mut Context,
        state_stack: &mut StateStack<S>,
        stage_callbacks: &mut StageCallbacks<C>,
    ) {
        let ghost burst = update_burst(
            stage_callbacks.count(Stage::PreUpdate),
            stage_callbacks.count(Stage::Update),
            stage_callbacks.count(Stage::PostUpdate),
        );
        if self.tick_duration_ns == 0 {
            proof {
                assert(context.trace() =~= context.trace() + repeat_trace(burst, 0));
                assert(stack_steps(state_stack@, state_stack@, 0));
            }
            return ;
        }
        let now = Instant::now();
        let elapsed_total: u128 = match self.previous {
            Option::Some(previous) => now.saturating_duration_since(previous).as_nanos(),
            Option::None => 0,
        };
        self.previous = Option::Some(now);
        let elapsed_ns: u64 = if elapsed_total > u64::MAX as u128 {
            u64::MAX
        } else {
            elapsed_total as u64
        };
        self.advance(elapsed_ns, context, state_stack, stage_callbacks);
    }

    /// Runs the render callbacks around the active state's render and counts
    /// exactly one frame; rendering is not gated by the accumulator.
    ///
    /// On top of the trait contract, this canonical scheduler promises that
    /// every render pass runs exactly one complete render bracket and counts
    /// exactly one frame, whatever the elapsed time or the accumulator hold.
    fn render(
        &mut self,
        context: &mut Context,
        state_stack: &mut StateStack<S>,
        stage_callbacks: &mut StageCallbacks<C>,
    )
        ensures
            *final(self) == *old(self),
            final(context).frames() == sat_add_u64(old(context).frames(), 1),
            final(context).trace() == old(context).trace() + render_burst(
                old(stage_callbacks).count(Stage::PreRender),
                old(stage_callbacks).count(Stage::Render),
                old(stage_callbacks).count(Stage::PostRender),
            ),
    {
        let ghost burst = render_burst(
            stage_callbacks.count(Stage::PreRender),
            stage_callbacks.count(Stage::Render),
            stage_callbacks.count(Stage::PostRender),
        );
        let ghost trace0 = context.trace();
        stage_callbacks.run(Stage::PreRender, context);
        stage_callbacks.run(Stage::Render, context);
        state_stack.render(context);
        context.trace = Ghost(context.trace@.push(TraceEntry::StackRendered));
        stage_callbacks.run(Stage::PostRender, context);
        context.game_loop.add_frame();
        proof {
            assert(repeat_trace(burst, 1) =~= repeat_trace(burst, 0) + burst);
            assert(repeat_trace(burst, 1) =~= burst);
            assert(context.trace() =~= trace0 + repeat_trace(burst, 1nat));
        }
    }
}

/// Builds a [`FixedUpdateScheduler`], with the tick rate and the update-time
/// budget both overridable.
pub struct FixedUpdateSchedulerBuilder {
    tps: u32,
    max_update_time_ns: u64,
}

impl FixedUpdateSchedulerBuilder {
    /// The configured ticks per second.
    pub closed spec fn tps_spec(self) -> u32 {
        self.tps
    }

    /// The configured update-time budget in nanoseconds.
    pub closed spec fn max_update_time_ns_spec(self) -> u64 {
        self.max_update_time_ns
    }

    /// Creates a builder with the default settings: 120 ticks per second and
    /// a 100ms update-time budget.
    pub fn new() -> (builder: Self)
        ensures
            builder.tps_spec() == 120,
            builder.max_update_time_ns_spec() == 100000000,
    {
        Self { tps: 120, max_update_time_ns: 100000000 }
    }

    /// Overrides the tick rate. The rate must be a whole, positive number of
    /// ticks per second no finer than the nanosecond clock resolves.
    pub fn with_tps(self, tps: u32) -> (builder: Self)
        requires
            1 <= tps <= 1000000000,
        ensures
            builder.tps_spec() == tps,
            builder.max_update_time_ns_spec() == self.max_update_time_ns_spec(),
    {
        Self { tps, max_update_time_ns: self.max_update_time_ns }
    }

    /// Overrides the update-time budget, in nanoseconds.
    pub fn with_max_update_time_ns(self, max_update_time_ns: u64) -> (builder: Self)
        ensures
            builder.tps_spec() == self.tps_spec(),
            builder.max_update_time_ns_spec() == max_update_time_ns,
    {
        Self { tps: self.tps, max_update_time_ns }
    }

    /// Consumes the builder and returns the configured scheduler, with an
    /// empty accumulator and no pass run yet.
    pub fn build(self) -> (scheduler: FixedUpdateScheduler)
        requires
            1 <= self.tps_spec() <= 1000000000,
        ensures
            scheduler.tps_spec() == self.tps_spec(),
            scheduler.tick_duration_ns_spec() == 1000000000u64 / self.tps_spec() as u64,
            scheduler.tick_duration_ns_spec() > 0,
            scheduler.max_update_time_ns_spec() == self.max_update_time_ns_spec(),
            scheduler.accumulator_ns_spec() == 0,
            scheduler.previous_spec() is None,
    {
        proof {
            vstd::arithmetic::div_mod::lemma_div_non_zero(1000000000, self.tps as int);
        }
        FixedUpdateScheduler {
            tps: self.tps,
            tick_duration_ns: 1000000000u64 / (self.tps as u64),
            max_update_time_ns: self.max_update_time_ns,
            accumulator_ns: 0,
            previous: Option::None,
        }
    }
}

impl Default for FixedUpdateSchedulerBuilder {
    /// The default builder carries the default settings.
    fn default() -> (builder: Self)
        ensures
            builder.tps_spec() == 120,
            builder.max_update_time_ns_spec() == 100000000,
    {
        Self::new()
    }
}

} // verus!
