//! A generic, FIFO event queue, and the polling interface shared by every
//! event source of the runtime.
//!
//! The queue has one consumer: whoever owns it. Events are delivered in the
//! exact order they were sent; `lemma_fifo_delivery` states that law.

use vstd::prelude::*;

verus! {

/// The built-in lifecycle events of the runtime.
///
/// `Quit` is terminal: once the event loop has observed it, no further event
/// is ever produced. `EventsCleared` is synthesized by the event loop when
/// its queue is empty while the loop is still running, and marks a frame
/// boundary.
#[derive(Clone, Copy, Debug, PartialEq, Eq, Structural)]
pub enum Event {
    Quit,
    Update,
    Render,
    EventsCleared,
}

/// A pull-based source of events.
///
/// Each implementation chooses, through `poll_spec`, the exact relation
/// between its state before a poll, its state after it, and the event the
/// poll produced.
pub trait EventLoop<E>: Sized {
    /// The poll protocol of this event source: `poll_spec(pre, post, event)`
    /// holds exactly when polling a source in state `pre` may leave it in
    /// state `post` and produce `event`.
    spec fn poll_spec(pre: Self, post: Self, event: Option<E>) -> bool;

    /// Returns the next event of this source, or `None` if it is exhausted.
    fn next_event(&mut self) -> (event: Option<E>)
        ensures
            Self::poll_spec(*old(self), *final(self), event),
    ;
}

/// A destination events can be sent to.
///
/// Each implementation chooses, through `send_spec`, the exact relation
/// between its state before a send, its state after it, and the outcome.
pub trait EventSender<E>: Sized {
    /// The send protocol of this sender: `send_spec(pre, post, event, result)`
    /// holds exactly when sending `event` to a sender in state `pre` may
    /// leave it in state `post` with outcome `result`.
    spec fn send_spec(pre: Self, post: Self, event: E, result: Result<(), String>) -> bool;

    /// Sends `event`, or reports why it could not be delivered.
    fn send_event(&mut self, event: E) -> (result: Result<(), String>)
        ensures
            Self::send_spec(*old(self), *final(self), event, result),
    ;
}

/// An ordered, single-consumer event queue.
///
/// `send_event` appends at the back; `next_event` takes from the front, so
/// events come out in the order they were put in.
pub struct EventQueue<E> {
    events: Vec<E>,
}

impl<E> View for EventQueue<E> {
    type V = Seq<E>;

    closed spec fn view(&self) -> Seq<E> {
        self.events@
    }
}

impl<E> EventQueue<E> {
    /// Creates a new, empty event queue.
    pub fn new() -> (queue: Self)
        ensures
            queue@ == Seq::<E>::empty(),
    {
        Self { events: Vec::new() }
    }
}

impl<E> EventSender<E> for EventQueue<E> {
    /// Sending appends the event at the back of the queue, and never fails:
    /// a queue owns its receiving end, so it cannot be detached from it.
    open spec fn send_spec(pre: Self, post: Self, event: E, result: Result<(), String>) -> bool {
        result is Ok && post@ == pre@.push(event)
    }

    fn send_event(&mut self, event: E) -> (result: Result<(), String>) {
        self.events.push(event);
        Ok(())
    }
}

impl<E> EventLoop<E> for EventQueue<E> {
    /// Polling a queue takes the oldest event from the front, or returns
    /// `None`, leaving the queue untouched, if it is empty.
    open spec fn poll_spec(pre: Self, post: Self, event: Option<E>) -> bool {
        match event {
            Option::Some(e) => pre@.len() > 0 && e == pre@[0] && post@ == pre@.drop_first(),
            Option::None => pre@.len() == 0 && post@ == pre@,
        }
    }

    fn next_event(&mut self) -> (event: Option<E>) {
        if self.events.len() == 0 {
            Option::None
        } else {
            Option::Some(self.events.remove(0))
        }
    }
}

impl<E> Default for EventQueue<E> {
    /// The default queue is the empty queue.
    fn default() -> (queue: Self)
        ensures
            queue@ == Seq::<E>::empty(),
    {
        Self::new()
    }
}

/// The contents of a queue with view `s` after polling it `k` times.
pub open spec fn after_polls<E>(s: Seq<E>, k: nat) -> Seq<E>
    decreases k,
{
    if k == 0 {
        s
    } else {
        let p = after_polls(s, (k - 1) as nat);
        if p.len() == 0 {
            p
        } else {
            p.drop_first()
        }
    }
}

proof fn lemma_after_polls_skip<E>(s: Seq<E>, k: nat)
    requires
        k <= s.len(),
    ensures
        after_polls(s, k) == s.skip(k as int),
    decreases k,
{
    if k == 0 {
        assert(after_polls(s, 0) =~= s.skip(0));
    } else {
        lemma_after_polls_skip(s, (k - 1) as nat);
        assert(after_polls(s, k) =~= s.skip(k as int));
    }
}

/// FIFO delivery: for a single producer that has sent the events of `s` in
/// that order, the `k`-th poll of the queue delivers `s[k]`; in particular,
/// for any `i < j`, the event sent `i`-th is observed strictly before the
/// event sent `j`-th.
pub proof fn lemma_fifo_delivery<E>(s: Seq<E>, k: nat)
    requires
        k < s.len(),
    ensures
        after_polls(s, k).len() > 0,
        after_polls(s, k)[0] == s[k as int],
{
    lemma_after_polls_skip(s, k);
}

} // verus!
