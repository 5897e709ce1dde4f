//! The interface between a lock and the policy that schedules its holders.

use crate::sync::notify_all;
use crate::sync::notify_one;
use std::sync::Condvar;
use std::time::Duration;
use vstd::prelude::*;

verus! {

/// Whom to wake once a change to the holders has been published.
#[derive(Clone, Copy, Debug, PartialEq, Eq, Structural)]
pub enum Wake {
    /// No waiter can have become admissible.
    Nobody,
    /// One waiter, whichever it is.
    One,
    /// Every waiter; each looks at the state again.
    All,
}

/// A scheduling policy for a reader-writer lock. The policy keeps its own
/// record of the holders in `Sync`, shared by every thread that uses the lock.
///
/// Each timed operation returns whether the caller now holds what it asked
/// for. A duration of zero asks once and does not wait; `Duration::MAX` waits
/// without limit.
pub trait Spec {
    /// The record of holders and waiters, with what is needed to wait on it.
    type Sync;

    /// A record of a lock that nobody holds.
    fn new() -> Self::Sync;

    /// Counts the caller as a reader once the policy admits one.
    fn try_read(sync: &Self::Sync, duration: Duration) -> bool;

    /// Gives up one reader's hold. Does nothing where no reader is counted.
    fn read_unlock(sync: &Self::Sync)
        opens_invariants none
        no_unwind when true
    ;

    /// Makes the caller the writer once the policy admits one.
    fn try_write(sync: &Self::Sync, duration: Duration) -> bool;

    /// Gives up the writer's hold. Does nothing where no writer is recorded.
    fn write_unlock(sync: &Self::Sync)
        opens_invariants none
        no_unwind when true
    ;

    /// Turns the writer into the only reader, in one step. Returns whether a
    /// writer was recorded; where none was, nothing changes.
    fn downgrade(sync: &Self::Sync) -> bool;

    /// Turns the caller, a reader, into the writer once it is the only holder,
    /// in one step.
    fn try_upgrade(sync: &Self::Sync, duration: Duration) -> bool;
}

/// Wakes the waiters on `cond` that `wake` names.
pub fn notify(cond: &Condvar, wake: Wake)
    opens_invariants none
    no_unwind
{
    match wake {
        Wake::Nobody => {},
        Wake::One => notify_one(cond),
        Wake::All => notify_all(cond),
    }
}

} // verus!
