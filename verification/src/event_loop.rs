//! The engine's event loop: an event queue that keeps emitting events for as
//! long as the engine runs.
//!
//! While the loop is running, polling it with an empty queue yields
//! [`Event::EventsCleared`] instead of nothing, so "poll until no event"
//! means "run until shutdown". Observing [`Event::Quit`] shuts the loop down:
//! from then on every poll yields `None`. `lemma_events_cleared` and
//! `lemma_quit_terminal` state those two laws.

use vstd::prelude::*;
use crate::events::{Event, EventLoop as EventSource, EventQueue, EventSender};

verus! {

/// The event a loop with the given queue contents and shutdown flag produces
/// when polled.
pub open spec fn poll_event(pending: Seq<Event>, has_quit: bool) -> Option<Event> {
    if has_quit {
        Option::None
    } else if pending.len() > 0 {
        Option::Some(pending[0])
    } else {
        Option::Some(Event::EventsCleared)
    }
}

/// The queue contents left after one poll.
pub open spec fn poll_pending(pending: Seq<Event>, has_quit: bool) -> Seq<Event> {
    if has_quit || pending.len() == 0 {
        pending
    } else {
        pending.drop_first()
    }
}

/// The shutdown flag after one poll: it is set exactly when it was already
/// set or the poll delivered `Quit`, and once set it never clears.
pub open spec fn poll_quit(pending: Seq<Event>, has_quit: bool) -> bool {
    has_quit || (pending.len() > 0 && pending[0] == Event::Quit)
}

/// The `(pending, has_quit)` state of a loop after `k` polls.
pub open spec fn polls_after(pending: Seq<Event>, has_quit: bool, k: nat) -> (Seq<Event>, bool)
    decreases k,
{
    if k == 0 {
        (pending, has_quit)
    } else {
        let (p, q) = polls_after(pending, has_quit, (k - 1) as nat);
        (poll_pending(p, q), poll_quit(p, q))
    }
}

/// Wraps an [`EventQueue`] and injects the synthetic lifecycle events.
pub struct EventLoop {
    event_queue: EventQueue<Event>,
    has_quit: bool,
}

impl EventLoop {
    /// The events queued and not yet delivered.
    pub closed spec fn pending(self) -> Seq<Event> {
        self.event_queue@
    }

    /// Whether the loop has observed `Quit` and shut down.
    pub closed spec fn has_quit_spec(self) -> bool {
        self.has_quit
    }

    /// Creates a running event loop with an empty queue.
    pub fn new() -> (event_loop: Self)
        ensures
            event_loop.pending() == Seq::<Event>::empty(),
            !event_loop.has_quit_spec(),
    {
        Self { event_queue: EventQueue::new(), has_quit: false }
    }

    /// Returns true once the loop has observed `Quit`.
    pub fn has_quit(&self) -> (has_quit: bool)
        ensures
            has_quit == self.has_quit_spec(),
    {
        self.has_quit
    }

    /// Marks the loop as shut down when the delivered event is `Quit`, and
    /// hands the event through unchanged.
    fn handle_event(&mut self, event: Event) -> (handled: Event)
        ensures
            handled == event,
            final(self).pending() == old(self).pending(),
            final(self).has_quit_spec() == (old(self).has_quit_spec() || event == Event::Quit),
    {
        if event == Event::Quit {
            self.has_quit = true;
        }
        event
    }

    /// The event to deliver when the queue is empty: `EventsCleared` while
    /// running, nothing after shutdown.
    fn handle_empty_event(&self) -> (event: Option<Event>)
        ensures
            event == if self.has_quit_spec() {
                Option::<Event>::None
            } else {
                Option::Some(Event::EventsCleared)
            },
    {
        if self.has_quit {
            Option::None
        } else {
            Option::Some(Event::EventsCleared)
        }
    }
}

impl EventSender<Event> for EventLoop {
    /// Sending queues the event and never fails; it succeeds even after
    /// shutdown, though a shut-down loop will never deliver the event.
    open spec fn send_spec(pre: Self, post: Self, event: Event, result: Result<
        (),
        String,
    >) -> bool {
        &&& result is Ok
        &&& post.pending() == pre.pending().push(event)
        &&& post.has_quit_spec() == pre.has_quit_spec()
    }

    fn send_event(&mut self, event: Event) -> (result: Result<(), String>) {
        self.event_queue.send_event(event)
    }
}

impl EventSource<Event> for EventLoop {
    /// One poll of the event loop: after shutdown nothing is delivered;
    /// otherwise the oldest queued event is delivered (setting the shutdown
    /// flag if it is `Quit`), and an empty queue yields `EventsCleared`.
    open spec fn poll_spec(pre: Self, post: Self, event: Option<Event>) -> bool {
        &&& event == poll_event(pre.pending(), pre.has_quit_spec())
        &&& post.pending() == poll_pending(pre.pending(), pre.has_quit_spec())
        &&& post.has_quit_spec() == poll_quit(pre.pending(), pre.has_quit_spec())
    }

    fn next_event(&mut self) -> (event: Option<Event>) {
        if self.has_quit {
            return Option::None;
        }
        match self.event_queue.next_event() {
            Option::Some(event) => Option::Some(self.handle_event(event)),
            Option::None => self.handle_empty_event(),
        }
    }
}

/// EventsCleared invariant, first half: polling a running event loop with an
/// empty queue always yields `EventsCleared`, never "no event".
pub proof fn lemma_events_cleared(pending: Seq<Event>, has_quit: bool)
    requires
        !has_quit,
        pending.len() == 0,
    ensures
        poll_event(pending, has_quit) == Option::Some(Event::EventsCleared),
{
}

/// Observing `Quit`: while the loop is running, a poll finding events queued
/// delivers the oldest one, and performs the single false-to-true transition
/// of the shutdown flag exactly when that event is `Quit` — no other event
/// sets the flag.
pub proof fn lemma_quit_observed(pending: Seq<Event>, has_quit: bool)
    requires
        !has_quit,
        pending.len() > 0,
    ensures
        poll_event(pending, has_quit) == Option::Some(pending[0]),
        poll_quit(pending, has_quit) == (pending[0] == Event::Quit),
{
}

/// EventsCleared invariant, second half: once the loop has observed `Quit`,
/// every subsequent poll yields "no event" — never `EventsCleared` again —
/// and the loop's state never changes again.
pub proof fn lemma_quit_terminal(pending: Seq<Event>, has_quit: bool, k: nat)
    requires
        has_quit,
    ensures
        polls_after(pending, has_quit, k) == (pending, has_quit),
        poll_event(polls_after(pending, has_quit, k).0, polls_after(pending, has_quit, k).1)
            is None,
    decreases k,
{
    if k > 0 {
        lemma_quit_terminal(pending, has_quit, (k - 1) as nat);
    }
}

} // verus!
