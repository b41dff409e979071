//! Application states, the transitions they request, and the stack that owns
//! them.
//!
//! The top of the stack is the active state: it alone receives update and
//! render calls. Its update returns a [`Transition`] request which the stack
//! applies before the next call; `lemma_stack_transitions` states the
//! transition law.

use vstd::prelude::*;
use crate::context::Context;

verus! {

/// A state's request to mutate the state stack, returned from its update
/// call. `None` (no transition requested) leaves the stack unchanged.
pub enum Transition<S> {
    /// Place a new state above the current one; it becomes active.
    Push(S),
    /// Remove the current state; the one below becomes active.
    Pop,
    /// Empty the whole stack, which terminates the engine's main loop.
    Quit,
}

/// The optional transition an update call hands back.
pub type OptionalTransition<S> = Option<Transition<S>>;

/// The result of a render call.
pub type RenderResult = ();

/// One layer of application logic.
///
/// A state may keep and mutate its own data, but it must leave the game-loop
/// counters (which only the scheduler advances) and the runtime's call record
/// untouched.
pub trait State: Sized {
    /// Advances the state by one fixed tick and returns the stack transition
    /// it requests, if any.
    fn update(&mut self, context: &mut Context) -> (transition: OptionalTransition<Self>)
        ensures
            final(context).trace() == old(context).trace(),
            final(context).ticks() == old(context).ticks(),
            final(context).frames() == old(context).frames(),
    ;

    /// Renders one frame of the state.
    fn render(&mut self, context: &mut Context) -> (result: RenderResult)
        ensures
            final(context).trace() == old(context).trace(),
            final(context).ticks() == old(context).ticks(),
            final(context).frames() == old(context).frames(),
    ;
}

/// A state that does nothing and never requests a transition.
pub struct EmptyState;

impl State for EmptyState {
    fn update(&mut self, _context: &mut Context) -> (transition: OptionalTransition<Self>) {
        Option::None
    }

    fn render(&mut self, _context: &mut Context) -> RenderResult {
    }
}

/// The stack `stack` after applying `transition` to it.
///
/// `Pop` on an empty stack is a harmless no-op; `Quit` empties the stack
/// whatever it held.
pub open spec fn apply_transition_spec<S>(stack: Seq<S>, transition: OptionalTransition<S>) -> Seq<
    S,
> {
    match transition {
        Option::None => stack,
        Option::Some(Transition::Push(state)) => stack.push(state),
        Option::Some(Transition::Pop) => if stack.len() == 0 {
            stack
        } else {
            stack.drop_last()
        },
        Option::Some(Transition::Quit) => Seq::empty(),
    }
}

/// How one update pass may change the stack: an empty stack stays empty, and
/// otherwise the top state is replaced by its updated self and the transition
/// it returned is applied.
pub open spec fn stack_step<S>(pre: Seq<S>, post: Seq<S>) -> bool {
    if pre.len() == 0 {
        post == pre
    } else {
        exists|top: S, transition: OptionalTransition<S>|
            post == #[trigger] apply_transition_spec(pre.update(pre.len() - 1, top), transition)
    }
}

/// How one render pass may change the stack: only the top state may have
/// mutated its own data; the stack's shape is untouched.
pub open spec fn render_step<S>(pre: Seq<S>, post: Seq<S>) -> bool {
    if pre.len() == 0 {
        post == pre
    } else {
        exists|top: S| post == #[trigger] pre.update(pre.len() - 1, top)
    }
}

/// Whether `post` is reachable from `pre` by exactly `k` update passes.
pub open spec fn stack_steps<S>(pre: Seq<S>, post: Seq<S>, k: nat) -> bool
    decreases k,
{
    if k == 0 {
        post == pre
    } else {
        exists|mid: Seq<S>| stack_step(pre, mid) && stack_steps(mid, post, (k - 1) as nat)
    }
}

/// A step sequence extends on the right: `k` steps from `a` to `b` followed
/// by one step from `b` to `c` make `k + 1` steps from `a` to `c`.
pub proof fn lemma_stack_steps_extend<S>(a: Seq<S>, b: Seq<S>, c: Seq<S>, k: nat)
    requires
        stack_steps(a, b, k),
        stack_step(b, c),
    ensures
        stack_steps(a, c, (k + 1) as nat),
    decreases k,
{
    if k == 0 {
        assert(stack_step(a, c));
        assert(stack_steps(c, c, 0));
    } else {
        let mid = choose|mid: Seq<S>| stack_step(a, mid) && stack_steps(mid, b, (k - 1) as nat);
        lemma_stack_steps_extend(mid, b, c, (k - 1) as nat);
    }
}

/// An ordered stack of owned states; the last element is the active one.
pub struct StateStack<S> {
    states: Vec<S>,
}

impl<S> View for StateStack<S> {
    type V = Seq<S>;

    closed spec fn view(&self) -> Seq<S> {
        self.states@
    }
}

impl<S> StateStack<S> {
    /// Creates an empty state stack.
    pub fn new() -> (stack: Self)
        ensures
            stack@ == Seq::<S>::empty(),
    {
        Self { states: Vec::new() }
    }

    /// Places `state` on top of the stack; it becomes the active state for
    /// the next update or render call.
    pub fn push(&mut self, state: S)
        ensures
            final(self)@ == old(self)@.push(state),
    {
        self.states.push(state);
    }

    /// Returns true if the stack holds no state; an empty stack is the
    /// engine's termination condition.
    pub fn is_empty(&self) -> (empty: bool)
        ensures
            empty == (self@.len() == 0),
    {
        self.states.len() == 0
    }

    /// Returns the number of states on the stack.
    pub fn len(&self) -> (length: usize)
        ensures
            length == self@.len(),
    {
        self.states.len()
    }

    /// Applies a requested transition to the stack: `Push` inserts above the
    /// current top, `Pop` removes the top (a no-op on an empty stack), `Quit`
    /// empties the stack, and `None` changes nothing.
    pub fn apply_transition(&mut self, transition: OptionalTransition<S>)
        ensures
            final(self)@ == apply_transition_spec(old(self)@, transition),
    {
        match transition {
            Option::None => (),
            Option::Some(Transition::Push(state)) => self.states.push(state),
            Option::Some(Transition::Pop) => {
                if self.states.len() > 0 {
                    let _ = self.states.pop();
                }
            },
            Option::Some(Transition::Quit) => self.states.clear(),
        }
    }
}

impl<S: State> StateStack<S> {
    /// Delegates one update to the active state, then applies the transition
    /// it returned. On an empty stack this is a no-op.
    pub fn update(&mut self, context: &mut Context)
        ensures
            stack_step(old(self)@, final(self)@),
            final(context).trace() == old(context).trace(),
            final(context).ticks() == old(context).ticks(),
            final(context).frames() == old(context).frames(),
    {
        if self.states.len() == 0 {
            return ;
        }
        let i = self.states.len() - 1;
        let top = &mut self.states[i];
        let transition = top.update(context);
        let ghost updated_top = *top;
        self.apply_transition(transition);
        proof {
            let pre = old(self)@;
            assert(self@ == apply_transition_spec(
                pre.update(pre.len() - 1, updated_top),
                transition,
            ));
            assert(stack_step(pre, self@));
        }
    }

    /// Delegates one render to the active state; lower states are not
    /// rendered. On an empty stack this is a no-op.
    pub fn render(&mut self, context: &mut Context)
        ensures
            render_step(old(self)@, final(self)@),
            final(context).trace() == old(context).trace(),
            final(context).ticks() == old(context).ticks(),
            final(context).frames() == old(context).frames(),
    {
        if self.states.len() == 0 {
            return ;
        }
        let i = self.states.len() - 1;
        let top = &mut self.states[i];
        top.render(context);
        let ghost updated_top = *top;
        proof {
            let pre = old(self)@;
            assert(self@ == pre.update(pre.len() - 1, updated_top));
            assert(render_step(pre, self@));
        }
    }
}

/// Stack transition law: starting from the stack `[a]`, a `Push(b)` makes the
/// stack `[a, b]` with `b` active on top; a `Pop` then restores `[a]`; a
/// `Quit` then empties the stack, which terminates the engine's main loop.
pub proof fn lemma_stack_transitions<S>(a: S, b: S)
    ensures
        apply_transition_spec(seq![a], Option::Some(Transition::Push(b))) == seq![a, b],
        seq![a, b].last() == b,
        apply_transition_spec(seq![a, b], Option::Some(Transition::Pop)) == seq![a],
        apply_transition_spec(seq![a], Option::Some(Transition::Quit)) == Seq::<S>::empty(),
{
    assert(apply_transition_spec(seq![a], Option::Some(Transition::Push(b))) =~= seq![a, b]);
    assert(apply_transition_spec(seq![a, b], Option::Some(Transition::Pop)) =~= seq![a]);
    assert(apply_transition_spec(seq![a], Option::Some(Transition::Quit)) =~= Seq::<S>::empty());
}

} // verus!
