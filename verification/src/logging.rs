//! The logging surface of the runtime: a level for the process-wide sink,
//! and a logger that fans messages out to connected log targets.

use vstd::prelude::*;

verus! {

/// The verbosity level the process-wide logging sink is initialized with.
pub enum LogLevel {
    Debug,
}

/// A destination for log messages; what a target does with a message it
/// accepts is its own business.
pub trait LogTarget: Sized {
    /// Accepts one message.
    fn log(&mut self, message: &str);
}

/// The delivery record left by handing one message to each of `n` targets, in
/// connection order: the message paired with each target's index.
pub open spec fn delivery_record(message: Seq<char>, n: nat) -> Seq<(Seq<char>, int)> {
    Seq::new(n, |i: int| (message, i))
}

/// Fans log messages out to its connected log targets, in the order the
/// targets were connected.
///
/// A ghost record keeps every delivery the logger has made — which message
/// went to which target, in order — so the contract of [`Logger::log`] pins
/// down that no target is skipped.
pub struct Logger<T> {
    log_targets: Vec<T>,
    deliveries: Ghost<Seq<(Seq<char>, int)>>,
}

impl<T> Logger<T> {
    /// The connected log targets, in connection order.
    pub closed spec fn targets(self) -> Seq<T> {
        self.log_targets@
    }

    /// Every delivery this logger has made, in order: the message handed
    /// over, paired with the index of the target that received it.
    pub closed spec fn deliveries(self) -> Seq<(Seq<char>, int)> {
        self.deliveries@
    }

    /// Creates a logger with no connected targets.
    pub fn new() -> (logger: Self)
        ensures
            logger.targets() == Seq::<T>::empty(),
            logger.deliveries() == Seq::<(Seq<char>, int)>::empty(),
    {
        Self { log_targets: Vec::new(), deliveries: Ghost(Seq::empty()) }
    }

    /// Connects `log_target`; it will receive every message logged from now
    /// on, after all targets connected earlier.
    pub fn add_log_target(&mut self, log_target: T)
        ensures
            final(self).targets() == old(self).targets().push(log_target),
            final(self).deliveries() == old(self).deliveries(),
    {
        self.log_targets.push(log_target);
    }
}

impl<T: LogTarget> Logger<T> {
    /// Delivers `message` to every connected target, in connection order: no
    /// target is skipped, none is disconnected, and the delivery record
    /// grows by exactly one entry per target.
    pub fn log(&mut self, message: &str)
        ensures
            final(self).targets().len() == old(self).targets().len(),
            final(self).deliveries() == old(self).deliveries() + delivery_record(
                message@,
                old(self).targets().len(),
            ),
    {
        let ghost deliveries0 = self.deliveries@;
        let mut i: usize = 0;
        while i < self.log_targets.len()
            invariant
                i <= self.log_targets@.len(),
                self.log_targets@.len() == old(self).targets().len(),
                self.deliveries@ == deliveries0 + delivery_record(message@, i as nat),
            decreases self.log_targets@.len() - i,
        {
            self.deliveries = Ghost(self.deliveries@.push((message@, i as int)));
            let target = &mut self.log_targets[i];
            target.log(message);
            i = i + 1;
            proof {
                assert(self.deliveries@ =~= deliveries0 + delivery_record(message@, i as nat));
            }
        }
        proof {
            assert(self.deliveries@ =~= deliveries0 + delivery_record(
                message@,
                old(self).targets().len(),
            ));
        }
    }
}

impl<T> Default for Logger<T> {
    /// The default logger has no connected targets.
    fn default() -> (logger: Self)
        ensures
            logger.targets() == Seq::<T>::empty(),
            logger.deliveries() == Seq::<(Seq<char>, int)>::empty(),
    {
        Self::new()
    }
}

} // verus!
