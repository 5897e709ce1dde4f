//! The write-biased moderator: a reader waits for an active writer and for
//! every writer that waits, so a writer that has arrived is not overtaken.

use crate::deadline::wait_until;
use crate::deadline::Deadline;
use crate::model::Event;
use crate::model::Holders;
use crate::sync::lock;
use crate::sync::new_condvar;
use crate::sync::new_mutex;
use crate::sync::remedy;
use crate::sync::state_mut;
use crate::xlock::moderator::notify;
use crate::xlock::moderator::Spec;
use crate::xlock::moderator::Wake;
use std::sync::Condvar;
use std::sync::Mutex;
use std::time::Duration;
use vstd::prelude::*;

verus! {

/// Selects the write-biased policy.
#[derive(Debug)]
pub struct WriteBiased;

/// The holders of a write-biased lock, and how many threads wait to write.
/// A reader that waits to become the writer is counted among them.
pub struct WriteBiasedState {
    readers: u32,
    writer: bool,
    writers_waiting: u32,
}

/// What the threads of a write-biased lock share.
pub struct WriteBiasedSync {
    state: Mutex<WriteBiasedState>,
    cond: Condvar,
}

impl WriteBiasedState {
    /// Who holds the lock.
    pub closed spec fn holders(&self) -> Holders {
        Holders { readers: self.readers as nat, writer: self.writer }
    }

    /// How many threads wait to write.
    pub closed spec fn waiting(&self) -> nat {
        self.writers_waiting as nat
    }

    /// Never a writer together with a reader. Holds of every state there is.
    #[verifier::type_invariant]
    pub open spec fn wf(&self) -> bool {
        self.holders().exclusive()
    }

    /// A reader is admitted unless a writer holds the lock or waits for it.
    /// (The count of readers is a `u32`; at its maximum a reader waits as well.)
    pub open spec fn admits_read(&self) -> bool {
        self.holders().admits_read() && self.waiting() == 0 && self.holders().readers < u32::MAX
    }

    /// A writer is admitted when nobody holds the lock.
    pub open spec fn admits_write(&self) -> bool {
        self.holders().admits_write()
    }

    /// A reader may become the writer when it is the only holder.
    pub open spec fn admits_upgrade(&self) -> bool {
        self.holders().admits_upgrade()
    }

    /// Whether some thread that had to wait in `before` may go on in `self`:
    /// a reader, a writer, or a reader that wants to become the writer, which
    /// there can be only while a reader holds the lock.
    pub open spec fn unblocks(&self, before: &Self) -> bool {
        ||| self.admits_read() && !before.admits_read()
        ||| self.admits_write() && !before.admits_write()
        ||| self.admits_upgrade() && !before.admits_upgrade() && before.holders().readers > 0
    }

    /// The number of waiting writers once one of them has stopped waiting.
    pub open spec fn waiting_less_one(&self) -> nat {
        if self.waiting() > 0 {
            (self.waiting() - 1) as nat
        } else {
            0
        }
    }

    /// The waiters to wake once a waiting writer has stopped waiting: nobody
    /// if it got what it waited for, since it then bars everyone; all if it
    /// gave up and was the last to wait, since readers may then go on.
    pub open spec fn wake_after_wait(ok: bool, still_waiting: nat) -> Wake {
        if !ok && still_waiting == 0 {
            Wake::All
        } else {
            Wake::Nobody
        }
    }

    /// The waiters to wake once a reader has gone and `left` remain: all when
    /// at most one is left, since a writer or a reader that wants to become
    /// one may then go on, and readers wait on the same condition; all when
    /// the count has just come off its maximum, where readers wait too.
    pub open spec fn wake_after_read(left: nat) -> Wake {
        if left <= 1 || left == u32::MAX - 1 {
            Wake::All
        } else {
            Wake::Nobody
        }
    }

    /// The state of a lock that nobody holds or waits for.
    pub fn new() -> (s: Self)
        ensures
            s.holders() == Holders::idle(),
            s.waiting() == 0,
            s.wf(),
    {
        WriteBiasedState { readers: 0, writer: false, writers_waiting: 0 }
    }

    /// The number of readers that hold the lock.
    pub fn readers(&self) -> (n: u32)
        ensures
            n == self.holders().readers,
    {
        self.readers
    }

    /// Whether a writer holds the lock.
    pub fn writer(&self) -> (b: bool)
        ensures
            b == self.holders().writer,
        opens_invariants none
        no_unwind
    {
        self.writer
    }

    /// The number of threads that wait to write.
    pub fn writers_waiting(&self) -> (n: u32)
        ensures
            n == self.waiting(),
    {
        self.writers_waiting
    }

    /// Whether at least one reader holds the lock.
    pub fn has_reader(&self) -> (b: bool)
        ensures
            b == (self.holders().readers > 0),
        opens_invariants none
        no_unwind
    {
        self.readers > 0
    }

    /// Whether a reader that arrives now has to wait.
    pub fn read_blocked(&self) -> (b: bool)
        ensures
            b == !self.admits_read(),
    {
        self.writer || self.writers_waiting > 0 || self.readers == u32::MAX
    }

    /// Whether a writer that arrives now has to wait.
    pub fn write_blocked(&self) -> (b: bool)
        ensures
            b == !self.admits_write(),
    {
        self.readers != 0 || self.writer
    }

    /// Whether a reader that wants to become the writer has to wait.
    pub fn upgrade_blocked(&self) -> (b: bool)
        ensures
            b == !self.admits_upgrade(),
    {
        self.readers != 1 || self.writer
    }

    /// Counts one more reader where a reader is admitted, and changes nothing
    /// where it is not.
    pub fn admit_read(&mut self) -> (ok: bool)
        ensures
            ok == old(self).admits_read(),
            ok ==> final(self).holders() == old(self).holders().read_acquired(),
            !ok ==> final(self).holders() == old(self).holders(),
            final(self).waiting() == old(self).waiting(),
            !final(self).unblocks(old(self)),
            old(self).holders().leads_to(final(self).holders()),
            final(self).wf(),
    {
        proof {
            use_type_invariant(&*self);
        }
        if self.writer || self.writers_waiting > 0 || self.readers == u32::MAX {
            false
        } else {
            self.readers = self.readers + 1;
            true
        }
    }

    /// Counts the caller among the waiting writers. Fails, and changes
    /// nothing, where that count is at the maximum of a `u32`.
    pub fn enlist_writer(&mut self) -> (ok: bool)
        ensures
            ok == (old(self).waiting() < u32::MAX),
            ok ==> final(self).waiting() == old(self).waiting() + 1,
            !ok ==> final(self).waiting() == old(self).waiting(),
            final(self).holders() == old(self).holders(),
            !final(self).unblocks(old(self)),
            old(self).holders().leads_to(final(self).holders()),
            final(self).wf(),
    {
        proof {
            use_type_invariant(&*self);
        }
        if self.writers_waiting == u32::MAX {
            false
        } else {
            self.writers_waiting = self.writers_waiting + 1;
            true
        }
    }

    /// Ends the wait of a writer that was enlisted: takes it off the waiting
    /// count, records it as the writer where a writer is admitted, and says
    /// whom to wake.
    pub fn settle_write(&mut self) -> (r: (bool, Wake))
        ensures
            r.0 == old(self).admits_write(),
            r.0 ==> final(self).holders() == old(self).holders().write_acquired(),
            !r.0 ==> final(self).holders() == old(self).holders(),
            final(self).waiting() == old(self).waiting_less_one(),
            r.1 == Self::wake_after_wait(r.0, final(self).waiting()),
            r.1 == Wake::Nobody ==> !final(self).unblocks(old(self)),
            old(self).holders().leads_to(final(self).holders()),
            final(self).wf(),
    {
        proof {
            use_type_invariant(&*self);
        }
        if self.writers_waiting > 0 {
            self.writers_waiting = self.writers_waiting - 1;
        }
        if self.readers != 0 || self.writer {
            if self.writers_waiting == 0 {
                (false, Wake::All)
            } else {
                (false, Wake::Nobody)
            }
        } else {
            self.writer = true;
            (true, Wake::Nobody)
        }
    }

    /// Ends the wait of a reader that was enlisted to become the writer:
    /// takes it off the waiting count, turns it into the writer where it is
    /// the only holder, and says whom to wake.
    pub fn settle_upgrade(&mut self) -> (r: (bool, Wake))
        ensures
            r.0 == old(self).admits_upgrade(),
            r.0 ==> final(self).holders() == old(self).holders().upgraded(),
            !r.0 ==> final(self).holders() == old(self).holders(),
            final(self).waiting() == old(self).waiting_less_one(),
            r.1 == Self::wake_after_wait(r.0, final(self).waiting()),
            r.1 == Wake::Nobody ==> !final(self).unblocks(old(self)),
            old(self).holders().leads_to(final(self).holders()),
            final(self).wf(),
    {
        proof {
            use_type_invariant(&*self);
        }
        if self.writers_waiting > 0 {
            self.writers_waiting = self.writers_waiting - 1;
        }
        if self.readers != 1 || self.writer {
            if self.writers_waiting == 0 {
                (false, Wake::All)
            } else {
                (false, Wake::Nobody)
            }
        } else {
            self.readers = 0;
            self.writer = true;
            (true, Wake::Nobody)
        }
    }

    /// Takes one reader off the count and says whom to wake.
    pub fn release_read(&mut self) -> (wake: Wake)
        requires
            old(self).holders().readers > 0,
        ensures
            final(self).holders() == old(self).holders().read_released(),
            final(self).waiting() == old(self).waiting(),
            wake == Self::wake_after_read(final(self).holders().readers),
            wake == Wake::Nobody ==> !final(self).unblocks(old(self)),
            old(self).holders().leads_to(final(self).holders()),
            final(self).wf(),
        opens_invariants none
        no_unwind
    {
        proof {
            use_type_invariant(&*self);
        }
        self.readers = self.readers - 1;
        if self.readers <= 1 || self.readers == u32::MAX - 1 {
            Wake::All
        } else {
            Wake::Nobody
        }
    }

    /// Takes the writer off the record; every waiter is to be woken, and the
    /// first to look at the state goes on as the policy has it.
    pub fn release_write(&mut self) -> (wake: Wake)
        requires
            old(self).holders().writer,
        ensures
            final(self).holders() == old(self).holders().write_released(),
            final(self).holders() == Holders::idle(),
            final(self).waiting() == old(self).waiting(),
            wake == Wake::All,
            old(self).holders().leads_to(final(self).holders()),
            final(self).wf(),
        opens_invariants none
        no_unwind
    {
        proof {
            use_type_invariant(&*self);
        }
        self.writer = false;
        Wake::All
    }

    /// Turns the writer into the only reader; every waiter is to be woken.
    pub fn downgrade(&mut self) -> (wake: Wake)
        requires
            old(self).holders().writer,
        ensures
            final(self).holders() == old(self).holders().downgraded(),
            final(self).waiting() == old(self).waiting(),
            wake == Wake::All,
            old(self).holders().leads_to(final(self).holders()),
            final(self).wf(),
    {
        self.writer = false;
        self.readers = 1;
        Wake::All
    }
}

/// The policy admits only what the holders admit.
pub proof fn lemma_write_biased_refines(s: WriteBiasedState)
    ensures
        s.admits_read() ==> s.holders().enables(Event::ReadAcquired),
        s.admits_write() ==> s.holders().enables(Event::WriteAcquired),
        s.admits_upgrade() ==> s.holders().enables(Event::Upgraded),
{
}

/// A writer that waits bars every reader that arrives after it.
pub proof fn lemma_waiting_writer_bars_readers(s: WriteBiasedState)
    requires
        s.waiting() > 0,
    ensures
        !s.admits_read(),
{
}

impl Spec for WriteBiased {
    type Sync = WriteBiasedSync;

    fn new() -> WriteBiasedSync {
        WriteBiasedSync { state: new_mutex(WriteBiasedState::new()), cond: new_condvar() }
    }

    fn try_read(sync: &WriteBiasedSync, duration: Duration) -> bool {
        let mut deadline = Deadline::lazy_after(duration);
        let guard = remedy(lock(&sync.state));
        let mut guard = wait_until(
            &sync.cond,
            guard,
            &mut deadline,
            |s: &WriteBiasedState| -> (b: bool) { s.read_blocked() },
        );
        state_mut(&mut guard).admit_read()
    }

    fn read_unlock(sync: &WriteBiasedSync) {
        let mut wake = Wake::Nobody;
        {
            let mut guard = remedy(lock(&sync.state));
            let s = state_mut(&mut guard);
            if s.has_reader() {
                wake = s.release_read();
            }
        }
        notify(&sync.cond, wake);
    }

    fn try_write(sync: &WriteBiasedSync, duration: Duration) -> bool {
        let mut deadline = Deadline::lazy_after(duration);
        let mut guard = remedy(lock(&sync.state));
        if !state_mut(&mut guard).enlist_writer() {
            return false;
        }
        let mut guard = wait_until(
            &sync.cond,
            guard,
            &mut deadline,
            |s: &WriteBiasedState| -> (b: bool) { s.write_blocked() },
        );
        let (ok, wake) = state_mut(&mut guard).settle_write();
        std::mem::drop(guard);
        notify(&sync.cond, wake);
        ok
    }

    fn write_unlock(sync: &WriteBiasedSync) {
        let mut wake = Wake::Nobody;
        {
            let mut guard = remedy(lock(&sync.state));
            let s = state_mut(&mut guard);
            if s.writer() {
                wake = s.release_write();
            }
        }
        notify(&sync.cond, wake);
    }

    fn downgrade(sync: &WriteBiasedSync) -> bool {
        let mut wake = Wake::Nobody;
        let mut done = false;
        {
            let mut guard = remedy(lock(&sync.state));
            let s = state_mut(&mut guard);
            if s.writer() {
                wake = s.downgrade();
                done = true;
            }
        }
        notify(&sync.cond, wake);
        done
    }

    fn try_upgrade(sync: &WriteBiasedSync, duration: Duration) -> bool {
        let mut deadline = Deadline::lazy_after(duration);
        let mut guard = remedy(lock(&sync.state));
        if !state_mut(&mut guard).enlist_writer() {
            return false;
        }
        let mut guard = wait_until(
            &sync.cond,
            guard,
            &mut deadline,
            |s: &WriteBiasedState| -> (b: bool) { s.upgrade_blocked() },
        );
        let (ok, wake) = state_mut(&mut guard).settle_upgrade();
        std::mem::drop(guard);
        notify(&sync.cond, wake);
        ok
    }
}

} // verus!
