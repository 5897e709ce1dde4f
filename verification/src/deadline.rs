//! A point in time up to which an operation may wait, fixed on first use.

use crate::clock::nanos;
use crate::clock::FOREVER_NANOS;
use crate::sync::remedy;
use crate::sync::wait_timeout_while;
use crate::sync::wait_while;
use std::sync::Condvar;
use std::sync::MutexGuard;
use std::time::Duration;
use std::time::Instant;
use vstd::prelude::*;

verus! {

/// What is left of `total` nanoseconds once `elapsed` of them have passed.
pub open spec fn left_of(total: nat, elapsed: nat) -> nat {
    if elapsed >= total {
        0
    } else {
        (total - elapsed) as nat
    }
}

/// How long an operation may sleep before it looks at the state for the last
/// time.
#[derive(Clone, Copy, Debug, PartialEq, Eq)]
pub enum Patience {
    /// Not at all: the operation asks once.
    Nothing,
    /// For the given time, which is more than none.
    Within(Duration),
    /// Without limit.
    Forever,
}

/// A deadline that lies a given duration after the moment it is first asked
/// for the time remaining. Until then no clock is read.
pub struct Deadline {
    total: Duration,
    started: Option<Instant>,
}

impl Deadline {
    /// The duration that the deadline was made with, in nanoseconds.
    pub closed spec fn total(&self) -> nat {
        nanos(self.total)
    }

    /// Whether the clock has been read and the deadline is fixed.
    pub closed spec fn armed(&self) -> bool {
        self.started is Some
    }

    /// Whether the deadline never comes.
    pub open spec fn forever(&self) -> bool {
        self.total() == FOREVER_NANOS
    }

    /// A deadline `duration` after its first use. `Duration::MAX` stands for no
    /// deadline at all.
    pub fn lazy_after(duration: Duration) -> (d: Deadline)
        ensures
            d.total() == nanos(duration),
            !d.armed(),
    {
        Deadline { total: duration, started: None }
    }

    /// Whether the deadline never comes.
    pub fn is_forever(&self) -> (b: bool)
        ensures
            b == self.forever(),
    {
        self.total.as_nanos() == FOREVER_NANOS
    }

    /// The time left once `elapsed` has passed since the deadline was fixed:
    /// the difference, and zero from the deadline on.
    pub fn left_after(&self, elapsed: Duration) -> (r: Duration)
        ensures
            nanos(r) == left_of(self.total(), nanos(elapsed)),
    {
        self.total.saturating_sub(elapsed)
    }

    /// The time left until the deadline. The first call fixes the deadline and
    /// returns the whole duration; later calls return what the clock leaves of
    /// it, and zero once it has passed. Without a deadline the clock is never
    /// read and the answer is always `Duration::MAX`.
    pub fn remaining(&mut self) -> (r: Duration)
        ensures
            final(self).total() == old(self).total(),
            nanos(r) <= old(self).total(),
            old(self).forever() || !old(self).armed() ==> nanos(r) == old(self).total(),
            final(self).armed() == (old(self).armed() || !old(self).forever()),
    {
        if self.is_forever() {
            return self.total;
        }
        match self.started {
            None => {
                self.started = Some(Instant::now());
                self.total
            },
            Some(start) => {
                let elapsed = start.elapsed();
                self.left_after(elapsed)
            },
        }
    }

    /// How long an operation that goes by this deadline may sleep now:
    /// without limit where there is no deadline, not at all where no time
    /// remains, and for the time remaining otherwise.
    pub fn patience(&mut self) -> (p: Patience)
        ensures
            final(self).total() == old(self).total(),
            final(self).armed() == (old(self).armed() || !old(self).forever()),
            p is Forever <==> old(self).forever(),
            !old(self).armed() && old(self).total() == 0 ==> p is Nothing,
            p matches Patience::Within(limit) ==> 0 < nanos(limit) <= old(self).total(),
            !old(self).armed() && 0 < old(self).total() < FOREVER_NANOS ==> (p matches
            Patience::Within(limit) && nanos(limit) == old(self).total()),
    {
        if self.is_forever() {
            Patience::Forever
        } else {
            let remaining = self.remaining();
            if remaining.as_nanos() == 0 {
                Patience::Nothing
            } else {
                Patience::Within(remaining)
            }
        }
    }
}

/// Sleeps on `cond` until `blocked` is false of the state behind `g`, for as
/// long as `deadline` allows: not at all where no time remains, without limit
/// where there is no deadline. The state may still be blocked on return.
///
/// `cond` must be waited on with one mutex only, the one that `g` holds: the
/// standard library may panic otherwise. Every caller has its condition
/// variable and its mutex side by side in one record.
///
/// The deadline is fixed by the call, if it was not before. With a fresh
/// deadline of no time at all the mutex is never given up: the guard comes
/// back as it went in.
pub(crate) fn wait_until<'a, S, F: Fn(&S) -> bool>(
    cond: &Condvar,
    g: MutexGuard<'a, S>,
    deadline: &mut Deadline,
    blocked: F,
) -> (r: MutexGuard<'a, S>)
    requires
        forall|s: &S| #[trigger] blocked.requires((s,)),
    ensures
        final(deadline).total() == old(deadline).total(),
        final(deadline).armed() == (old(deadline).armed() || !old(deadline).forever()),
        !old(deadline).armed() && old(deadline).total() == 0 ==> r == g,
{
    match deadline.patience() {
        Patience::Forever => remedy(wait_while(cond, g, blocked)),
        Patience::Nothing => g,
        Patience::Within(limit) => remedy(wait_timeout_while(cond, g, limit, blocked)).0,
    }
}

} // verus!
