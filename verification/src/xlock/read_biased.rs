//! The read-biased moderator: a reader waits for an active writer only, so
//! readers that keep arriving can hold a writer off for good.

use crate::deadline::wait_until;
use crate::deadline::Deadline;
use crate::model::Event;
use crate::model::Holders;
use crate::sync::lock;
use crate::sync::new_condvar;
use crate::sync::new_mutex;
use crate::sync::remedy;
use crate::sync::state_mut;
use crate::xlock::moderator::notify;
use crate::xlock::moderator::Spec;
use crate::xlock::moderator::Wake;
use std::sync::Condvar;
use std::sync::Mutex;
use std::time::Duration;
use vstd::prelude::*;

verus! {

/// Selects the read-biased policy.
#[derive(Debug)]
pub struct ReadBiased;

/// The holders of a read-biased lock.
pub struct ReadBiasedState {
    readers: u32,
    writer: bool,
}

/// What the threads of a read-biased lock share.
pub struct ReadBiasedSync {
    state: Mutex<ReadBiasedState>,
    cond: Condvar,
}

impl ReadBiasedState {
    /// Who holds the lock.
    pub closed spec fn holders(&self) -> Holders {
        Holders { readers: self.readers as nat, writer: self.writer }
    }

    /// Never a writer together with a reader. Holds of every state there is.
    #[verifier::type_invariant]
    pub open spec fn wf(&self) -> bool {
        self.holders().exclusive()
    }

    /// A reader is admitted unless a writer holds the lock. (The count of
    /// readers is a `u32`; at its maximum a reader waits as well.)
    pub open spec fn admits_read(&self) -> bool {
        self.holders().admits_read() && self.holders().readers < u32::MAX
    }

    /// A writer is admitted when nobody holds the lock.
    pub open spec fn admits_write(&self) -> bool {
        self.holders().admits_write()
    }

    /// A reader may become the writer when it is the only holder.
    pub open spec fn admits_upgrade(&self) -> bool {
        self.holders().admits_upgrade()
    }

    /// Whether some thread that had to wait in `before` may go on in `self`:
    /// a reader, a writer, or a reader that wants to become the writer, which
    /// there can be only while a reader holds the lock.
    pub open spec fn unblocks(&self, before: &Self) -> bool {
        ||| self.admits_read() && !before.admits_read()
        ||| self.admits_write() && !before.admits_write()
        ||| self.admits_upgrade() && !before.admits_upgrade() && before.holders().readers > 0
    }

    /// The waiters to wake once a reader has gone and `left` remain: all when
    /// one is left, which may be waiting to upgrade; one when none is left,
    /// which can only be a writer; all when the count has just come off its
    /// maximum, where readers wait too.
    pub open spec fn wake_after_read(left: nat) -> Wake {
        if left == 1 || left == u32::MAX - 1 {
            Wake::All
        } else if left == 0 {
            Wake::One
        } else {
            Wake::Nobody
        }
    }

    /// The state of a lock that nobody holds.
    pub fn new() -> (s: Self)
        ensures
            s.holders() == Holders::idle(),
            s.wf(),
    {
        ReadBiasedState { readers: 0, writer: false }
    }

    /// The number of readers that hold the lock.
    pub fn readers(&self) -> (n: u32)
        ensures
            n == self.holders().readers,
    {
        self.readers
    }

    /// Whether a writer holds the lock.
    pub fn writer(&self) -> (b: bool)
        ensures
            b == self.holders().writer,
        opens_invariants none
        no_unwind
    {
        self.writer
    }

    /// Whether at least one reader holds the lock.
    pub fn has_reader(&self) -> (b: bool)
        ensures
            b == (self.holders().readers > 0),
        opens_invariants none
        no_unwind
    {
        self.readers > 0
    }

    /// Whether a reader that arrives now has to wait.
    pub fn read_blocked(&self) -> (b: bool)
        ensures
            b == !self.admits_read(),
    {
        self.writer || self.readers == u32::MAX
    }

    /// Whether a writer that arrives now has to wait.
    pub fn write_blocked(&self) -> (b: bool)
        ensures
            b == !self.admits_write(),
    {
        self.readers != 0 || self.writer
    }

    /// Whether a reader that wants to become the writer has to wait.
    pub fn upgrade_blocked(&self) -> (b: bool)
        ensures
            b == !self.admits_upgrade(),
    {
        self.readers != 1 || self.writer
    }

    /// Counts one more reader where a reader is admitted, and changes nothing
    /// where it is not.
    pub fn admit_read(&mut self) -> (ok: bool)
        ensures
            ok == old(self).admits_read(),
            ok ==> final(self).holders() == old(self).holders().read_acquired(),
            !ok ==> final(self).holders() == old(self).holders(),
            !final(self).unblocks(old(self)),
            old(self).holders().leads_to(final(self).holders()),
            final(self).wf(),
    {
        proof {
            use_type_invariant(&*self);
        }
        if self.writer || self.readers == u32::MAX {
            false
        } else {
            self.readers = self.readers + 1;
            true
        }
    }

    /// Records the writer where a writer is admitted, and changes nothing
    /// where it is not.
    pub fn admit_write(&mut self) -> (ok: bool)
        ensures
            ok == old(self).admits_write(),
            ok ==> final(self).holders() == old(self).holders().write_acquired(),
            !ok ==> final(self).holders() == old(self).holders(),
            !final(self).unblocks(old(self)),
            old(self).holders().leads_to(final(self).holders()),
            final(self).wf(),
    {
        proof {
            use_type_invariant(&*self);
        }
        if self.readers != 0 || self.writer {
            false
        } else {
            self.writer = true;
            true
        }
    }

    /// Turns the only reader into the writer where that is admitted, and
    /// changes nothing where it is not.
    pub fn admit_upgrade(&mut self) -> (ok: bool)
        ensures
            ok == old(self).admits_upgrade(),
            ok ==> final(self).holders() == old(self).holders().upgraded(),
            !ok ==> final(self).holders() == old(self).holders(),
            !final(self).unblocks(old(self)),
            old(self).holders().leads_to(final(self).holders()),
            final(self).wf(),
    {
        proof {
            use_type_invariant(&*self);
        }
        if self.readers != 1 || self.writer {
            false
        } else {
            self.readers = 0;
            self.writer = true;
            true
        }
    }

    /// Takes one reader off the count and says whom to wake.
    pub fn release_read(&mut self) -> (wake: Wake)
        requires
            old(self).holders().readers > 0,
        ensures
            final(self).holders() == old(self).holders().read_released(),
            wake == Self::wake_after_read(final(self).holders().readers),
            wake == Wake::Nobody ==> !final(self).unblocks(old(self)),
            wake == Wake::One ==> final(self).holders() == Holders::idle(),
            old(self).holders().leads_to(final(self).holders()),
            final(self).wf(),
        opens_invariants none
        no_unwind
    {
        proof {
            use_type_invariant(&*self);
        }
        self.readers = self.readers - 1;
        if self.readers == 1 || self.readers == u32::MAX - 1 {
            Wake::All
        } else if self.readers == 0 {
            Wake::One
        } else {
            Wake::Nobody
        }
    }

    /// Takes the writer off the record; one waiter is to be woken.
    pub fn release_write(&mut self) -> (wake: Wake)
        requires
            old(self).holders().writer,
        ensures
            final(self).holders() == old(self).holders().write_released(),
            final(self).holders() == Holders::idle(),
            wake == Wake::One,
            old(self).holders().leads_to(final(self).holders()),
            final(self).wf(),
        opens_invariants none
        no_unwind
    {
        proof {
            use_type_invariant(&*self);
        }
        self.writer = false;
        Wake::One
    }

    /// Turns the writer into the only reader; every waiter is to be woken,
    /// since readers that waited for the writer may now join.
    pub fn downgrade(&mut self) -> (wake: Wake)
        requires
            old(self).holders().writer,
        ensures
            final(self).holders() == old(self).holders().downgraded(),
            wake == Wake::All,
            old(self).holders().leads_to(final(self).holders()),
            final(self).wf(),
    {
        self.writer = false;
        self.readers = 1;
        Wake::All
    }
}

/// The policy admits only what the holders admit.
pub proof fn lemma_read_biased_refines(s: ReadBiasedState)
    ensures
        s.admits_read() ==> s.holders().enables(Event::ReadAcquired),
        s.admits_write() ==> s.holders().enables(Event::WriteAcquired),
        s.admits_upgrade() ==> s.holders().enables(Event::Upgraded),
{
}

/// A lock that nobody holds admits a reader and a writer alike, so
/// whichever waiter is woken first goes on.
pub proof fn lemma_idle_lock_admits_whoever_wakes(s: ReadBiasedState)
    requires
        s.holders() == Holders::idle(),
    ensures
        s.admits_read(),
        s.admits_write(),
{
}

/// Readers pass a writer that waits: while a reader holds the lock, one more
/// is admitted and no writer is, however many readers have come before.
pub proof fn lemma_readers_pass_waiting_writer(s: ReadBiasedState)
    requires
        s.wf(),
        0 < s.holders().readers < u32::MAX,
    ensures
        s.admits_read(),
        !s.admits_write(),
{
}

impl Spec for ReadBiased {
    type Sync = ReadBiasedSync;

    fn new() -> ReadBiasedSync {
        ReadBiasedSync { state: new_mutex(ReadBiasedState::new()), cond: new_condvar() }
    }

    fn try_read(sync: &ReadBiasedSync, duration: Duration) -> bool {
        let mut deadline = Deadline::lazy_after(duration);
        let guard = remedy(lock(&sync.state));
        let mut guard = wait_until(
            &sync.cond,
            guard,
            &mut deadline,
            |s: &ReadBiasedState| -> (b: bool) { s.read_blocked() },
        );
        state_mut(&mut guard).admit_read()
    }

    fn read_unlock(sync: &ReadBiasedSync) {
        let mut wake = Wake::Nobody;
        {
            let mut guard = remedy(lock(&sync.state));
            let s = state_mut(&mut guard);
            if s.has_reader() {
                wake = s.release_read();
            }
        }
        notify(&sync.cond, wake);
    }

    fn try_write(sync: &ReadBiasedSync, duration: Duration) -> bool {
        let mut deadline = Deadline::lazy_after(duration);
        let guard = remedy(lock(&sync.state));
        let mut guard = wait_until(
            &sync.cond,
            guard,
            &mut deadline,
            |s: &ReadBiasedState| -> (b: bool) { s.write_blocked() },
        );
        state_mut(&mut guard).admit_write()
    }

    fn write_unlock(sync: &ReadBiasedSync) {
        let mut wake = Wake::Nobody;
        {
            let mut guard = remedy(lock(&sync.state));
            let s = state_mut(&mut guard);
            if s.writer() {
                wake = s.release_write();
            }
        }
        notify(&sync.cond, wake);
    }

    fn downgrade(sync: &ReadBiasedSync) -> bool {
        let mut wake = Wake::Nobody;
        let mut done = false;
        {
            let mut guard = remedy(lock(&sync.state));
            let s = state_mut(&mut guard);
            if s.writer() {
                wake = s.downgrade();
                done = true;
            }
        }
        notify(&sync.cond, wake);
        done
    }

    fn try_upgrade(sync: &ReadBiasedSync, duration: Duration) -> bool {
        let mut deadline = Deadline::lazy_after(duration);
        let guard = remedy(lock(&sync.state));
        let mut guard = wait_until(
            &sync.cond,
            guard,
            &mut deadline,
            |s: &ReadBiasedState| -> (b: bool) { s.upgrade_blocked() },
        );
        state_mut(&mut guard).admit_upgrade()
    }
}

} // verus!
