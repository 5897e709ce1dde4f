//! A mutual-exclusion lock that spins on an atomic flag instead of sleeping.

use crate::sync::exclusive_target;
use crate::sync::exclusive_target_mut;
use crate::sync::new_rwlock;
use crate::sync::remedy;
use crate::sync::rwlock_get_mut;
use crate::sync::rwlock_into_inner;
use crate::sync::store_release;
use crate::sync::try_write_data;
use crate::sync::write_data;
use std::ops::Deref;
use std::ops::DerefMut;
use std::sync::atomic::AtomicBool;
use std::sync::atomic::Ordering;
use std::sync::LockResult;
use std::sync::RwLock;
use std::sync::RwLockWriteGuard;
use vstd::prelude::*;

verus! {

/// What an attempt to win the flag makes of it: the flag afterwards, which is
/// set, and whether the attempt won, which it did if the flag was clear.
pub open spec fn attempted(flag: bool) -> (bool, bool) {
    (true, !flag)
}

/// The flag once its holder has let go of it: clear.
pub open spec fn released(flag: bool) -> bool {
    false
}

/// While the flag is held, no attempt wins it; once its holder has let go,
/// the next attempt does.
pub proof fn lemma_flag_is_won_again(flag: bool)
    ensures
        !attempted(attempted(flag).0).1,
        attempted(released(attempted(flag).0)).1,
{
}

/// A value behind a flag that one thread at a time can win.
#[verifier::reject_recursive_types(T)]
pub struct SpinLock<T> {
    locked: AtomicBool,
    data: RwLock<T>,
}

/// The flag of a [`SpinLock`] as won by one guard; cleared when dropped.
#[verifier::reject_recursive_types(T)]
struct SpinHold<'a, T> {
    lock: &'a SpinLock<T>,
    won: bool,
}

/// Exclusive access to the value of a [`SpinLock`], for as long as the guard lives.
#[verifier::reject_recursive_types(T)]
pub struct SpinGuard<'a, T> {
    data: RwLockWriteGuard<'a, T>,
    hold: SpinHold<'a, T>,
}

impl<'a, T> Drop for SpinHold<'a, T> {
    /// Clears the flag if this hold has won it.
    fn drop(&mut self)
        opens_invariants none
        no_unwind
    {
        if self.won {
            self.lock.unlock();
        }
    }
}

impl<T> SpinLock<T> {
    /// An unlocked lock around `t`.
    pub fn new(t: T) -> (lock: Self) {
        SpinLock { locked: AtomicBool::new(false), data: new_rwlock(t) }
    }

    /// Takes the lock apart and returns its value. No guard can be alive.
    pub fn into_inner(self) -> (t: T) {
        remedy(rwlock_into_inner(self.data))
    }

    /// Spins until the flag is won and returns the guard.
    ///
    /// The flag is tried `u64::MAX` times at most. Should every attempt fail,
    /// the caller waits for the value itself instead: the guard then has not
    /// won the flag, and leaves it alone when dropped.
    pub fn lock(&self) -> (guard: SpinGuard<'_, T>)
        ensures
            guard.guards(self),
    {
        let mut attempts: u64 = u64::MAX;
        while attempts > 0
            decreases attempts,
        {
            match self.try_lock() {
                Some(guard) => {
                    return guard;
                },
                None => {},
            }
            attempts = attempts - 1;
        }
        SpinGuard { data: remedy(write_data(&self.data)), hold: SpinHold { lock: self, won: false } }
    }

    /// Tries once to win the flag, by changing it from clear to set with
    /// acquire ordering. Returns the guard if that succeeds and nothing if the
    /// flag is set already.
    pub fn try_lock(&self) -> (guard: Option<SpinGuard<'_, T>>)
        ensures
            guard matches Some(g) ==> g.guards(self) && g.won(),
    {
        let won = self.locked.compare_exchange(false, true, Ordering::Acquire, Ordering::Relaxed);
        self.claimed(won.is_ok())
    }

    /// The guard of a thread whose attempt at the flag has `won` it, and
    /// nothing for one whose attempt has not. A thread that has won the flag
    /// and finds the value taken all the same clears the flag again and gets
    /// nothing.
    fn claimed(&self, won: bool) -> (guard: Option<SpinGuard<'_, T>>)
        ensures
            !won ==> guard is None,
            guard matches Some(g) ==> g.guards(self) && g.won(),
    {
        if won {
            self.holder(try_write_data(&self.data))
        } else {
            None
        }
    }

    /// The guard of the thread that has just won the flag and was handed
    /// `data`. Where the value was not to be had, the flag is cleared again
    /// and there is no guard.
    fn holder<'a>(&'a self, data: Option<LockResult<RwLockWriteGuard<'a, T>>>) -> (guard: Option<
        SpinGuard<'a, T>,
    >)
        ensures
            guard is Some == data is Some,
            guard matches Some(g) ==> g.guards(self) && g.won(),
    {
        match data {
            Some(data) => Some(
                SpinGuard { data: remedy(data), hold: SpinHold { lock: self, won: true } },
            ),
            None => {
                self.unlock();
                None
            },
        }
    }

    /// Clears the flag with release ordering. A guard does this when dropped.
    pub fn unlock(&self)
        opens_invariants none
        no_unwind
    {
        store_release(&self.locked, false);
    }

    /// The value, to be changed in place. No guard can be alive, so nothing is
    /// locked.
    pub fn get_mut(&mut self) -> (t: &mut T) {
        remedy(rwlock_get_mut(&mut self.data))
    }
}

impl<'a, T> SpinGuard<'a, T> {
    /// The lock that the guard gives access to.
    pub closed spec fn lock(&self) -> &'a SpinLock<T> {
        self.hold.lock
    }

    /// Whether the guard has won the flag, and clears it when dropped.
    pub closed spec fn won(&self) -> bool {
        self.hold.won
    }

    /// Whether the guard gives access to the value of `lock`.
    pub open spec fn guards(&self, lock: &SpinLock<T>) -> bool {
        self.lock() == lock
    }
}

impl<'a, T> Deref for SpinGuard<'a, T> {
    type Target = T;

    fn deref(&self) -> &T {
        exclusive_target(&self.data)
    }
}

impl<'a, T> DerefMut for SpinGuard<'a, T> {
    fn deref_mut(&mut self) -> &mut T {
        exclusive_target_mut(&mut self.data)
    }
}

} // verus!
