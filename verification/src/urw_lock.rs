//! A read-biased reader-writer lock without timeouts that reports poisoning:
//! a guard taken after a thread has panicked with the value in its hands comes
//! wrapped in an error.

use crate::sync::downgrade_data;
use crate::sync::exclusive_target;
use crate::sync::exclusive_target_mut;
use crate::sync::lock;
use crate::sync::new_condvar;
use crate::sync::new_mutex;
use crate::sync::new_poison;
use crate::sync::new_rwlock;
use crate::sync::poison_into_inner;
use crate::sync::read_data;
use crate::sync::remedy;
use crate::sync::shared_target;
use crate::sync::state_mut;
use crate::sync::wait_while;
use crate::sync::write_data;
use crate::xlock::moderator::notify;
use crate::xlock::moderator::Wake;
use crate::xlock::read_biased::ReadBiasedState;
use crate::xlock::Held;
use std::ops::Deref;
use std::ops::DerefMut;
use std::sync::Condvar;
use std::sync::Mutex;
use std::sync::PoisonError;
use std::sync::RwLock;
use std::sync::RwLockReadGuard;
use std::sync::RwLockWriteGuard;
use vstd::prelude::*;

verus! {

/// A reader-writer lock around a value of type `T`.
#[verifier::reject_recursive_types(T)]
pub struct UrwLock<T> {
    state: Mutex<ReadBiasedState>,
    cond: Condvar,
    data: RwLock<T>,
}

/// A place among the holders of a [`UrwLock`], given up when dropped.
#[verifier::reject_recursive_types(T)]
struct UrwHold<'a, T> {
    lock: &'a UrwLock<T>,
    held: Held,
}

/// Shared access to the value of a [`UrwLock`], for as long as the guard lives.
#[verifier::reject_recursive_types(T)]
pub struct UrwLockReadGuard<'a, T> {
    data: RwLockReadGuard<'a, T>,
    hold: UrwHold<'a, T>,
}

/// Exclusive access to the value of a [`UrwLock`], for as long as the guard lives.
#[verifier::reject_recursive_types(T)]
pub struct UrwLockWriteGuard<'a, T> {
    data: RwLockWriteGuard<'a, T>,
    hold: UrwHold<'a, T>,
}

/// Takes a lock's answer apart: what it carries, and whether the lock was
/// poisoned.
pub fn unpack<T>(result: Result<T, PoisonError<T>>) -> (r: (T, bool))
    ensures
        r.1 == (result is Err),
        result matches Ok(inner) ==> r.0 == inner,
{
    match result {
        Ok(inner) => (inner, false),
        Err(error) => (poison_into_inner(error), true),
    }
}

/// Puts a lock's answer together: `data` as it is, or inside an error where
/// the lock was poisoned.
pub fn pack<T>(data: T, poisoned: bool) -> (r: Result<T, PoisonError<T>>)
    ensures
        (r is Err) == poisoned,
        r matches Ok(inner) ==> inner == data,
{
    if poisoned {
        Err(new_poison(data))
    } else {
        Ok(data)
    }
}

impl<'a, T> Drop for UrwHold<'a, T> {
    /// Gives the place back.
    fn drop(&mut self)
        opens_invariants none
        no_unwind
    {
        match self.held {
            Held::Nothing => {},
            Held::Read => self.lock.read_unlock(),
            Held::Write => self.lock.write_unlock(),
        }
    }
}

impl<T> UrwLock<T> {
    /// A lock around `t` that nobody holds.
    pub fn new(t: T) -> (lock: Self) {
        UrwLock {
            state: new_mutex(ReadBiasedState::new()),
            cond: new_condvar(),
            data: new_rwlock(t),
        }
    }

    /// Waits until no writer holds the lock and returns a read guard, inside
    /// an error if the value's lock is poisoned.
    pub fn read(&self) -> (r: Result<UrwLockReadGuard<'_, T>, PoisonError<UrwLockReadGuard<'_, T>>>)
        ensures
            r matches Ok(guard) ==> guard.guards(self) && guard.held() != Held::Write,
    {
        let guard = remedy(lock(&self.state));
        let mut guard = remedy(
            wait_while(
                &self.cond,
                guard,
                |s: &ReadBiasedState| -> (b: bool) { s.read_blocked() },
            ),
        );
        let admitted = state_mut(&mut guard).admit_read();
        std::mem::drop(guard);
        self.reader(admitted, read_data(&self.data))
    }

    /// The read guard of a reader around the access `data` that the value's
    /// lock has handed out: counted if the reader was `admitted`, and inside an
    /// error exactly if `data` is.
    fn reader<'a>(
        &'a self,
        admitted: bool,
        data: Result<RwLockReadGuard<'a, T>, PoisonError<RwLockReadGuard<'a, T>>>,
    ) -> (r: Result<UrwLockReadGuard<'a, T>, PoisonError<UrwLockReadGuard<'a, T>>>)
        ensures
            r is Err == data is Err,
            r matches Ok(guard) ==> guard.guards(self) && guard.held() == if admitted {
                Held::Read
            } else {
                Held::Nothing
            },
    {
        let held = if admitted {
            Held::Read
        } else {
            Held::Nothing
        };
        let (data, poisoned) = unpack(data);
        pack(UrwLockReadGuard { data, hold: UrwHold { lock: self, held } }, poisoned)
    }

    /// Takes one reader off the count and wakes whoever may go on.
    fn read_unlock(&self)
        opens_invariants none
        no_unwind
    {
        let mut wake = Wake::Nobody;
        {
            let mut guard = remedy(lock(&self.state));
            let s = state_mut(&mut guard);
            if s.has_reader() {
                wake = s.release_read();
            }
        }
        notify(&self.cond, wake);
    }

    /// Waits until nobody holds the lock and returns a write guard, inside an
    /// error if the value's lock is poisoned.
    pub fn write(&self) -> (r: Result<
        UrwLockWriteGuard<'_, T>,
        PoisonError<UrwLockWriteGuard<'_, T>>,
    >)
        ensures
            r matches Ok(guard) ==> guard.guards(self) && guard.held() != Held::Read,
    {
        let guard = remedy(lock(&self.state));
        let mut guard = remedy(
            wait_while(
                &self.cond,
                guard,
                |s: &ReadBiasedState| -> (b: bool) { s.write_blocked() },
            ),
        );
        let admitted = state_mut(&mut guard).admit_write();
        std::mem::drop(guard);
        self.writer(admitted, write_data(&self.data))
    }

    /// The write guard of a writer around the access `data` that the value's
    /// lock has handed out: counted if the writer was `admitted`, and inside an
    /// error exactly if `data` is.
    fn writer<'a>(
        &'a self,
        admitted: bool,
        data: Result<RwLockWriteGuard<'a, T>, PoisonError<RwLockWriteGuard<'a, T>>>,
    ) -> (r: Result<UrwLockWriteGuard<'a, T>, PoisonError<UrwLockWriteGuard<'a, T>>>)
        ensures
            r is Err == data is Err,
            r matches Ok(guard) ==> guard.guards(self) && guard.held() == if admitted {
                Held::Write
            } else {
                Held::Nothing
            },
    {
        let held = if admitted {
            Held::Write
        } else {
            Held::Nothing
        };
        let (data, poisoned) = unpack(data);
        pack(UrwLockWriteGuard { data, hold: UrwHold { lock: self, held } }, poisoned)
    }

    /// Takes the writer off the record and wakes one waiter.
    fn write_unlock(&self)
        opens_invariants none
        no_unwind
    {
        let mut wake = Wake::Nobody;
        {
            let mut guard = remedy(lock(&self.state));
            let s = state_mut(&mut guard);
            if s.writer() {
                wake = s.release_write();
            }
        }
        notify(&self.cond, wake);
    }

    /// Turns a write guard of this lock into a read guard: the writer becomes
    /// the only reader in one step, and every waiter is woken.
    ///
    /// The read guard is counted if the write guard was.
    fn downgrade<'a>(&'a self, guard: UrwLockWriteGuard<'a, T>) -> (r: UrwLockReadGuard<'a, T>)
        requires
            guard.guards(self),
        ensures
            r.guards(self),
            guard.held() != Held::Write ==> r.held() == Held::Nothing,
            r.held() != Held::Write,
    {
        let done = guard.hold.held == Held::Write && self.writer_to_reader();
        self.downgraded_if(guard, done)
    }

    /// Turns the writer on the record into the only reader and wakes every
    /// waiter. Returns whether a writer was recorded; where none was, nothing
    /// changes.
    fn writer_to_reader(&self) -> (done: bool) {
        let mut wake = Wake::Nobody;
        let mut done = false;
        {
            let mut guard = remedy(lock(&self.state));
            let s = state_mut(&mut guard);
            if s.writer() {
                wake = s.downgrade();
                done = true;
            }
        }
        notify(&self.cond, wake);
        done
    }

    /// The read guard that takes the place of `guard`, with the access to the
    /// value turned from exclusive to shared: counted as a reader if the
    /// record has `done` its part, and holding nothing in the count if not.
    fn downgraded_if<'a>(&'a self, guard: UrwLockWriteGuard<'a, T>, done: bool) -> (r:
        UrwLockReadGuard<'a, T>)
        requires
            guard.guards(self),
        ensures
            r.guards(self),
            r.held() == if done {
                Held::Read
            } else {
                Held::Nothing
            },
    {
        let UrwLockWriteGuard { data, hold } = guard;
        let mut hold = hold;
        if done {
            hold.held = Held::Read;
        } else {
            hold.held = Held::Nothing;
        }
        UrwLockReadGuard { data: downgrade_data(data), hold }
    }
}

impl<'a, T> UrwLockReadGuard<'a, T> {
    /// The lock that the guard gives access to.
    pub closed spec fn lock(&self) -> &'a UrwLock<T> {
        self.hold.lock
    }

    /// What the guard holds in the lock's count.
    pub closed spec fn held(&self) -> Held {
        self.hold.held
    }

    /// Whether the guard gives access to the value of `lock`.
    pub open spec fn guards(&self, lock: &UrwLock<T>) -> bool {
        self.lock() == lock
    }
}

impl<'a, T> Deref for UrwLockReadGuard<'a, T> {
    type Target = T;

    fn deref(&self) -> &T {
        shared_target(&self.data)
    }
}

impl<'a, T> UrwLockWriteGuard<'a, T> {
    /// The lock that the guard gives access to.
    pub closed spec fn lock(&self) -> &'a UrwLock<T> {
        self.hold.lock
    }

    /// What the guard holds in the lock's count.
    pub closed spec fn held(&self) -> Held {
        self.hold.held
    }

    /// Whether the guard gives access to the value of `lock`.
    pub open spec fn guards(&self, lock: &UrwLock<T>) -> bool {
        self.lock() == lock
    }

    /// Turns the guard into a read guard without giving the lock up in
    /// between.
    pub fn downgrade(self) -> (r: UrwLockReadGuard<'a, T>)
        ensures
            r.guards(self.lock()),
            self.held() != Held::Write ==> r.held() == Held::Nothing,
            r.held() != Held::Write,
    {
        let lock = self.hold.lock;
        lock.downgrade(self)
    }
}

impl<'a, T> Deref for UrwLockWriteGuard<'a, T> {
    type Target = T;

    fn deref(&self) -> &T {
        exclusive_target(&self.data)
    }
}

impl<'a, T> DerefMut for UrwLockWriteGuard<'a, T> {
    fn deref_mut(&mut self) -> &mut T {
        exclusive_target_mut(&mut self.data)
    }
}

} // verus!
