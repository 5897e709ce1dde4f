//! The reader-writer lock and its guards.
//!
//! An [`XLock`] keeps its value in a standard reader-writer lock and lets a
//! moderator decide who may take it next. A guard is made of two parts: the
//! access to the value, and the place that the moderator counts. The access
//! is given up first, the place after it, so a thread that the moderator admits
//! never finds the value still taken.

pub mod arrival_ordered;
pub mod locklike;
pub mod moderator;
pub mod read_biased;
pub mod write_biased;

pub use crate::xlock::arrival_ordered::ArrivalOrdered;
pub use crate::xlock::arrival_ordered::ArrivalOrderedSync;
pub use crate::xlock::locklike::Moderator;
pub use crate::xlock::moderator::Spec;
pub use crate::xlock::read_biased::ReadBiased;
pub use crate::xlock::read_biased::ReadBiasedSync;
pub use crate::xlock::write_biased::WriteBiased;
pub use crate::xlock::write_biased::WriteBiasedSync;

use crate::clock::forever;
use crate::sync::downgrade_data;
use crate::sync::exclusive_target;
use crate::sync::exclusive_target_mut;
use crate::sync::new_rwlock;
use crate::sync::read_data;
use crate::sync::remedy;
use crate::sync::rwlock_get_mut;
use crate::sync::rwlock_into_inner;
use crate::sync::shared_target;
use crate::sync::write_data;
use std::ops::Deref;
use std::ops::DerefMut;
use std::sync::RwLock;
use std::sync::RwLockReadGuard;
use std::sync::RwLockWriteGuard;
use std::time::Duration;
use vstd::prelude::*;

verus! {

/// A reader-writer lock around a value of type `T`, scheduled by the moderator `S`.
#[verifier::reject_recursive_types(T)]
#[verifier::reject_recursive_types(S)]
pub struct XLock<T, S: Spec> {
    sync: S::Sync,
    data: RwLock<T>,
}

/// What a guard holds in the moderator's count.
#[derive(Clone, Copy, Debug, PartialEq, Eq, Structural)]
pub enum Held {
    /// Nothing: the moderator does not know of the guard.
    Nothing,
    /// One reader's place.
    Read,
    /// The writer's place.
    Write,
}

/// A place in the moderator's count, given up when the hold is dropped.
#[verifier::reject_recursive_types(T)]
#[verifier::reject_recursive_types(S)]
struct Hold<'a, T, S: Spec> {
    lock: &'a XLock<T, S>,
    held: Held,
}

/// Shared access to the value of an [`XLock`], for as long as the guard lives.
#[verifier::reject_recursive_types(T)]
#[verifier::reject_recursive_types(S)]
pub struct LockReadGuard<'a, T, S: Spec> {
    data: RwLockReadGuard<'a, T>,
    hold: Hold<'a, T, S>,
}

/// Exclusive access to the value of an [`XLock`], for as long as the guard lives.
#[verifier::reject_recursive_types(T)]
#[verifier::reject_recursive_types(S)]
pub struct LockWriteGuard<'a, T, S: Spec> {
    data: RwLockWriteGuard<'a, T>,
    hold: Hold<'a, T, S>,
}

/// What became of an attempt to turn a read guard into a write guard.
pub enum UpgradeOutcome<W, R> {
    /// The write guard that took the read guard's place.
    Upgraded(W),
    /// The read guard as it was handed in.
    Unchanged(R),
}

impl<'a, T, S: Spec> Drop for Hold<'a, T, S> {
    /// Gives the place back to the moderator.
    fn drop(&mut self)
        opens_invariants none
        no_unwind
    {
        match self.held {
            Held::Nothing => {},
            Held::Read => self.lock.read_unlock(),
            Held::Write => self.lock.write_unlock(),
        }
    }
}

impl<T, S: Spec> XLock<T, S> {
    /// A lock around `t` that nobody holds.
    pub fn new(t: T) -> (lock: Self) {
        XLock { sync: S::new(), data: new_rwlock(t) }
    }

    /// Takes the lock apart and returns its value. No guard can be alive.
    pub fn into_inner(self) -> (t: T) {
        remedy(rwlock_into_inner(self.data))
    }

    /// The value, to be changed in place. No guard can be alive, so nothing is
    /// locked.
    pub fn get_mut(&mut self) -> (t: &mut T) {
        remedy(rwlock_get_mut(&mut self.data))
    }

    /// Waits until the moderator admits a reader and returns a read guard.
    ///
    /// The guard is counted by the moderator unless the wait was cut short,
    /// which a poisoned state or an exhausted counter alone can do; the value
    /// is then protected by its own lock only.
    ///
    /// The value is kept in a standard reader-writer lock, which may panic
    /// or block for good where the calling thread holds a guard of this lock
    /// already and asks for another.
    pub fn read(&self) -> (guard: LockReadGuard<'_, T, S>)
        ensures
            guard.guards(self),
            guard.held() != Held::Write,
    {
        self.read_guard(S::try_read(&self.sync, forever()))
    }

    /// Returns a read guard if the moderator admits a reader within `duration`.
    ///
    /// The value is kept in a standard reader-writer lock, which may panic
    /// or block for good where the calling thread holds a guard of this lock
    /// already and asks for another.
    pub fn try_read(&self, duration: Duration) -> (guard: Option<LockReadGuard<'_, T, S>>)
        ensures
            guard matches Some(g) ==> g.guards(self) && g.held() == Held::Read,
    {
        self.reader(S::try_read(&self.sync, duration))
    }

    /// A read guard of this lock: counted as a reader if the moderator has
    /// `admitted` one, and holding nothing in its count if not.
    fn read_guard(&self, admitted: bool) -> (guard: LockReadGuard<'_, T, S>)
        ensures
            guard.guards(self),
            guard.held() == if admitted {
                Held::Read
            } else {
                Held::Nothing
            },
    {
        let held = if admitted {
            Held::Read
        } else {
            Held::Nothing
        };
        LockReadGuard { data: remedy(read_data(&self.data)), hold: Hold { lock: self, held } }
    }

    /// The read guard of a reader that the moderator has `admitted`, and
    /// nothing where it has not.
    fn reader(&self, admitted: bool) -> (guard: Option<LockReadGuard<'_, T, S>>)
        ensures
            guard is Some == admitted,
            guard matches Some(g) ==> g.guards(self) && g.held() == Held::Read,
    {
        if admitted {
            Some(self.read_guard(true))
        } else {
            None
        }
    }

    /// Gives one reader's place back to the moderator.
    fn read_unlock(&self)
        opens_invariants none
        no_unwind
    {
        S::read_unlock(&self.sync);
    }

    /// Waits until the moderator admits a writer and returns a write guard.
    ///
    /// The guard is counted by the moderator unless the wait was cut short,
    /// which a poisoned state or an exhausted counter alone can do; the value
    /// is then protected by its own lock only.
    ///
    /// The value is kept in a standard reader-writer lock, which may panic
    /// or block for good where the calling thread holds a guard of this lock
    /// already and asks for another.
    pub fn write(&self) -> (guard: LockWriteGuard<'_, T, S>)
        ensures
            guard.guards(self),
            guard.held() != Held::Read,
    {
        self.write_guard(S::try_write(&self.sync, forever()))
    }

    /// Returns a write guard if the moderator admits a writer within `duration`.
    ///
    /// The value is kept in a standard reader-writer lock, which may panic
    /// or block for good where the calling thread holds a guard of this lock
    /// already and asks for another.
    pub fn try_write(&self, duration: Duration) -> (guard: Option<LockWriteGuard<'_, T, S>>)
        ensures
            guard matches Some(g) ==> g.guards(self) && g.held() == Held::Write,
    {
        self.writer(S::try_write(&self.sync, duration))
    }

    /// A write guard of this lock: recorded as the writer if the moderator
    /// has `admitted` one, and holding nothing in its count if not.
    fn write_guard(&self, admitted: bool) -> (guard: LockWriteGuard<'_, T, S>)
        ensures
            guard.guards(self),
            guard.held() == if admitted {
                Held::Write
            } else {
                Held::Nothing
            },
    {
        let held = if admitted {
            Held::Write
        } else {
            Held::Nothing
        };
        LockWriteGuard { data: remedy(write_data(&self.data)), hold: Hold { lock: self, held } }
    }

    /// The write guard of a writer that the moderator has `admitted`, and
    /// nothing where it has not.
    fn writer(&self, admitted: bool) -> (guard: Option<LockWriteGuard<'_, T, S>>)
        ensures
            guard is Some == admitted,
            guard matches Some(g) ==> g.guards(self) && g.held() == Held::Write,
    {
        if admitted {
            Some(self.write_guard(true))
        } else {
            None
        }
    }

    /// Gives the writer's place back to the moderator.
    fn write_unlock(&self)
        opens_invariants none
        no_unwind
    {
        S::write_unlock(&self.sync);
    }

    /// Turns a write guard of this lock into a read guard. The moderator
    /// changes the writer into the only reader in one step, and the access to
    /// the value changes from exclusive to shared without being given up.
    ///
    /// The read guard is counted by the moderator if the write guard was.
    fn downgrade<'a>(&'a self, guard: LockWriteGuard<'a, T, S>) -> (r: LockReadGuard<'a, T, S>)
        requires
            guard.guards(self),
        ensures
            r.guards(self),
            guard.held() != Held::Write ==> r.held() == Held::Nothing,
            r.held() != Held::Write,
    {
        let done = guard.hold.held == Held::Write && S::downgrade(&self.sync);
        self.downgraded_if(guard, done)
    }

    /// The read guard that takes the place of `guard`, with the access to the
    /// value turned from exclusive to shared: counted as a reader if the
    /// moderator has `done` its part, and holding nothing in its count if not.
    fn downgraded_if<'a>(&'a self, guard: LockWriteGuard<'a, T, S>, done: bool) -> (r:
        LockReadGuard<'a, T, S>)
        requires
            guard.guards(self),
        ensures
            r.guards(self),
            r.held() == if done {
                Held::Read
            } else {
                Held::Nothing
            },
    {
        let LockWriteGuard { data, hold } = guard;
        let mut hold = hold;
        if done {
            hold.held = Held::Read;
        } else {
            hold.held = Held::Nothing;
        }
        LockReadGuard { data: downgrade_data(data), hold }
    }

    /// Turns a read guard of this lock into a write guard, waiting until it is
    /// the only holder.
    ///
    /// The write guard is counted by the moderator unless the wait was cut
    /// short or the read guard was not counted; the reader's place is then given
    /// up and the value is protected by its own lock only.
    fn upgrade<'a>(&'a self, guard: LockReadGuard<'a, T, S>) -> (w: LockWriteGuard<'a, T, S>)
        requires
            guard.guards(self),
        ensures
            w.guards(self),
            w.held() != Held::Read,
            guard.held() != Held::Read ==> w.held() == Held::Nothing,
    {
        let granted = guard.hold.held == Held::Read && S::try_upgrade(&self.sync, forever());
        self.upgraded_or_uncounted(guard, granted)
    }

    /// The write guard that takes the place of `guard`. Where the moderator
    /// has `granted` the upgrade, the reader's place becomes the writer's.
    /// Where it has not, the reader's place is given up and the write guard
    /// holds nothing in the moderator's count.
    fn upgraded_or_uncounted<'a>(&'a self, guard: LockReadGuard<'a, T, S>, granted: bool) -> (w:
        LockWriteGuard<'a, T, S>)
        requires
            guard.guards(self),
            granted ==> guard.held() == Held::Read,
        ensures
            w.guards(self),
            w.held() == if granted {
                Held::Write
            } else {
                Held::Nothing
            },
    {
        let LockReadGuard { data, hold } = guard;
        let mut hold = hold;
        std::mem::drop(data);
        if granted {
            hold.held = Held::Write;
            LockWriteGuard { data: remedy(write_data(&self.data)), hold }
        } else {
            std::mem::drop(hold);
            self.write_guard(false)
        }
    }

    /// Turns a read guard of this lock into a write guard if it becomes the
    /// only holder within `duration`; otherwise hands the read guard back as
    /// it was. A guard that the moderator does not count is handed back at once.
    fn try_upgrade<'a>(&'a self, guard: LockReadGuard<'a, T, S>, duration: Duration) -> (out:
        UpgradeOutcome<LockWriteGuard<'a, T, S>, LockReadGuard<'a, T, S>>)
        requires
            guard.guards(self),
        ensures
            match out {
                UpgradeOutcome::Upgraded(w) => guard.held() == Held::Read && w.held()
                    == Held::Write && w.guards(self),
                UpgradeOutcome::Unchanged(r) => r == guard,
            },
            guard.held() != Held::Read ==> out is Unchanged,
    {
        let granted = guard.hold.held == Held::Read && S::try_upgrade(&self.sync, duration);
        self.upgraded_if(guard, granted)
    }

    /// The outcome of an upgrade that the moderator has `granted` or not:
    /// the write guard that takes the place of `guard`, the reader's place
    /// having become the writer's, or `guard` as it is.
    fn upgraded_if<'a>(&'a self, guard: LockReadGuard<'a, T, S>, granted: bool) -> (out:
        UpgradeOutcome<LockWriteGuard<'a, T, S>, LockReadGuard<'a, T, S>>)
        requires
            guard.guards(self),
            granted ==> guard.held() == Held::Read,
        ensures
            out is Upgraded == granted,
            match out {
                UpgradeOutcome::Upgraded(w) => w.held() == Held::Write && w.guards(self),
                UpgradeOutcome::Unchanged(r) => r == guard,
            },
    {
        if granted {
            UpgradeOutcome::Upgraded(self.upgraded_or_uncounted(guard, true))
        } else {
            UpgradeOutcome::Unchanged(guard)
        }
    }
}

impl<'a, T, S: Spec> LockReadGuard<'a, T, S> {
    /// The lock that the guard gives access to.
    pub closed spec fn lock(&self) -> &'a XLock<T, S> {
        self.hold.lock
    }

    /// What the guard holds in the moderator's count.
    pub closed spec fn held(&self) -> Held {
        self.hold.held
    }

    /// Whether the guard gives access to the value of `lock`.
    pub open spec fn guards(&self, lock: &XLock<T, S>) -> bool {
        self.lock() == lock
    }

    /// Whether the moderator counts the guard as a reader.
    pub fn is_counted(&self) -> (b: bool)
        ensures
            b == (self.held() == Held::Read),
    {
        self.hold.held == Held::Read
    }

    /// Turns the guard into a write guard, waiting until it is the only holder
    /// of the lock. Two guards that wait for each other here wait for good.
    pub fn upgrade(self) -> (w: LockWriteGuard<'a, T, S>)
        ensures
            w.guards(self.lock()),
            w.held() != Held::Read,
            self.held() != Held::Read ==> w.held() == Held::Nothing,
    {
        let lock = self.hold.lock;
        lock.upgrade(self)
    }

    /// Turns the guard into a write guard if it becomes the only holder of the
    /// lock within `duration`, without giving the lock up in between. Otherwise
    /// the guard comes back as it was, and still protects the value.
    pub fn try_upgrade(self, duration: Duration) -> (out: UpgradeOutcome<
        LockWriteGuard<'a, T, S>,
        LockReadGuard<'a, T, S>,
    >)
        ensures
            match out {
                UpgradeOutcome::Upgraded(w) => self.held() == Held::Read && w.held()
                    == Held::Write && w.guards(self.lock()),
                UpgradeOutcome::Unchanged(r) => r == self,
            },
    {
        let lock = self.hold.lock;
        lock.try_upgrade(self, duration)
    }
}

impl<'a, T, S: Spec> Deref for LockReadGuard<'a, T, S> {
    type Target = T;

    fn deref(&self) -> &T {
        shared_target(&self.data)
    }
}

impl<'a, T, S: Spec> LockWriteGuard<'a, T, S> {
    /// The lock that the guard gives access to.
    pub closed spec fn lock(&self) -> &'a XLock<T, S> {
        self.hold.lock
    }

    /// What the guard holds in the moderator's count.
    pub closed spec fn held(&self) -> Held {
        self.hold.held
    }

    /// Whether the guard gives access to the value of `lock`.
    pub open spec fn guards(&self, lock: &XLock<T, S>) -> bool {
        self.lock() == lock
    }

    /// Whether the moderator records the guard as the writer.
    pub fn is_counted(&self) -> (b: bool)
        ensures
            b == (self.held() == Held::Write),
    {
        self.hold.held == Held::Write
    }

    /// Turns the guard into a read guard without giving the lock up in
    /// between: no writer can come in before the new guard is dropped.
    pub fn downgrade(self) -> (r: LockReadGuard<'a, T, S>)
        ensures
            r.guards(self.lock()),
            self.held() != Held::Write ==> r.held() == Held::Nothing,
            r.held() != Held::Write,
    {
        let lock = self.hold.lock;
        lock.downgrade(self)
    }
}

impl<'a, T, S: Spec> Deref for LockWriteGuard<'a, T, S> {
    type Target = T;

    fn deref(&self) -> &T {
        exclusive_target(&self.data)
    }
}

impl<'a, T, S: Spec> DerefMut for LockWriteGuard<'a, T, S> {
    fn deref_mut(&mut self) -> &mut T {
        exclusive_target_mut(&mut self.data)
    }
}

impl<W, R> UpgradeOutcome<W, R> {
    /// Whether the upgrade took place.
    pub fn is_upgraded(&self) -> (b: bool)
        ensures
            b == (self is Upgraded),
    {
        match self {
            UpgradeOutcome::Upgraded(_) => true,
            UpgradeOutcome::Unchanged(_) => false,
        }
    }

    /// Whether the read guard came back as it was.
    pub fn is_unchanged(&self) -> (b: bool)
        ensures
            b == (self is Unchanged),
    {
        match self {
            UpgradeOutcome::Upgraded(_) => false,
            UpgradeOutcome::Unchanged(_) => true,
        }
    }

    /// The write guard, if the upgrade took place.
    pub fn upgraded(self) -> (w: Option<W>)
        ensures
            w == match self {
                UpgradeOutcome::Upgraded(guard) => Some(guard),
                UpgradeOutcome::Unchanged(_) => None,
            },
    {
        match self {
            UpgradeOutcome::Upgraded(guard) => Some(guard),
            UpgradeOutcome::Unchanged(_) => None,
        }
    }

    /// The same outcome with `on_write` applied to the write guard, or
    /// `on_read` to the read guard, whichever there is.
    pub fn map<W2, R2, F: FnOnce(W) -> W2, G: FnOnce(R) -> R2>(
        self,
        on_write: F,
        on_read: G,
    ) -> (out: UpgradeOutcome<W2, R2>)
        requires
            self matches UpgradeOutcome::Upgraded(w) ==> on_write.requires((w,)),
            self matches UpgradeOutcome::Unchanged(r) ==> on_read.requires((r,)),
        ensures
            match self {
                UpgradeOutcome::Upgraded(w) => out matches UpgradeOutcome::Upgraded(w2)
                    && on_write.ensures((w,), w2),
                UpgradeOutcome::Unchanged(r) => out matches UpgradeOutcome::Unchanged(r2)
                    && on_read.ensures((r,), r2),
            },
    {
        match self {
            UpgradeOutcome::Upgraded(w) => UpgradeOutcome::Upgraded(on_write(w)),
            UpgradeOutcome::Unchanged(r) => UpgradeOutcome::Unchanged(on_read(r)),
        }
    }

    /// The read guard, if the upgrade did not take place.
    pub fn unchanged(self) -> (r: Option<R>)
        ensures
            r == match self {
                UpgradeOutcome::Upgraded(_) => None,
                UpgradeOutcome::Unchanged(guard) => Some(guard),
            },
    {
        match self {
            UpgradeOutcome::Upgraded(_) => None,
            UpgradeOutcome::Unchanged(guard) => Some(guard),
        }
    }
}

} // verus!
