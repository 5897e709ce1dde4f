//! Bindings to the standard library's mutex, condition variable,
//! reader-writer lock, write-once cell and atomic flag.
//!
//! What another thread does between two calls decides what these return, so
//! none of them promises anything: callers are verified for every outcome.
//! A lock that was poisoned hands out its guard inside an error; [`remedy`]
//! takes it out, which is how this crate goes on after a panic elsewhere.

use std::ops::Deref;
use std::ops::DerefMut;
use std::sync::atomic::AtomicBool;
use std::sync::atomic::Ordering;
use std::sync::Condvar;
use std::sync::LockResult;
use std::sync::Mutex;
use std::sync::MutexGuard;
use std::sync::OnceLock;
use std::sync::PoisonError;
use std::sync::RwLock;
use std::sync::RwLockReadGuard;
use std::sync::RwLockWriteGuard;
use std::sync::TryLockError;
use std::sync::WaitTimeoutResult;
use std::time::Duration;
use vstd::prelude::*;

verus! {

/// `std::sync::Mutex`.
#[verifier::external_type_specification]
#[verifier::external_body]
#[verifier::reject_recursive_types(T)]
pub struct ExMutex<T: ?Sized>(Mutex<T>);

/// `std::sync::MutexGuard`.
#[verifier::external_type_specification]
#[verifier::external_body]
#[verifier::reject_recursive_types(T)]
pub struct ExMutexGuard<'a, T: ?Sized + 'a>(MutexGuard<'a, T>);

/// `std::sync::Condvar`.
#[verifier::external_type_specification]
#[verifier::external_body]
pub struct ExCondvar(Condvar);

/// `std::sync::WaitTimeoutResult`, which says whether a timed wait ran out of
/// time.
#[verifier::external_type_specification]
#[verifier::external_body]
pub struct ExWaitTimeoutResult(WaitTimeoutResult);

/// `std::sync::PoisonError`, which a lock hands out around its guard once a
/// thread has panicked while it held the lock.
#[verifier::external_type_specification]
#[verifier::external_body]
#[verifier::reject_recursive_types(T)]
pub struct ExPoisonError<T>(PoisonError<T>);

/// `std::sync::OnceLock`.
#[verifier::external_type_specification]
#[verifier::external_body]
#[verifier::reject_recursive_types(T)]
pub struct ExOnceLock<T>(OnceLock<T>);

/// `std::sync::RwLock`.
#[verifier::external_type_specification]
#[verifier::external_body]
#[verifier::reject_recursive_types(T)]
pub struct ExRwLock<T: ?Sized>(RwLock<T>);

/// `std::sync::RwLockReadGuard`.
#[verifier::external_type_specification]
#[verifier::external_body]
#[verifier::reject_recursive_types(T)]
pub struct ExRwLockReadGuard<'a, T: ?Sized>(RwLockReadGuard<'a, T>);

/// `std::sync::RwLockWriteGuard`.
#[verifier::external_type_specification]
#[verifier::external_body]
#[verifier::reject_recursive_types(T)]
pub struct ExRwLockWriteGuard<'a, T: ?Sized + 'a>(RwLockWriteGuard<'a, T>);

/// `PoisonError::new`: an error that carries `data`.
#[verifier::external_body]
pub(crate) fn new_poison<T>(data: T) -> (e: PoisonError<T>) {
    PoisonError::new(data)
}

/// `PoisonError::into_inner`: what the error carries.
#[verifier::external_body]
pub(crate) fn poison_into_inner<T>(e: PoisonError<T>) -> (data: T)
    opens_invariants none
    no_unwind
{
    e.into_inner()
}

/// What a lock has handed out, whether or not the lock was poisoned.
pub fn remedy<T>(result: LockResult<T>) -> (inner: T)
    ensures
        result matches Ok(data) ==> inner == data,
    opens_invariants none
    no_unwind
{
    match result {
        Ok(data) => data,
        Err(e) => poison_into_inner(e),
    }
}

/// `Mutex::new`: a mutex around `state`.
#[verifier::external_body]
pub(crate) fn new_mutex<S>(state: S) -> (m: Mutex<S>) {
    Mutex::new(state)
}

/// `Condvar::new`.
#[verifier::external_body]
pub(crate) fn new_condvar() -> (c: Condvar) {
    Condvar::new()
}

/// `Mutex::lock`: blocks until the mutex is held by the caller. The standard
/// library lets the call panic where the calling thread holds the mutex
/// already. This crate takes each of its mutexes for the length of one
/// function and never twice at a time; the one piece of foreign code that runs
/// under one of them is the producer handed to a cell, which must leave the
/// cell alone.
#[verifier::external_body]
pub(crate) fn lock<'a, S>(m: &'a Mutex<S>) -> (g: LockResult<MutexGuard<'a, S>>)
    opens_invariants none
    no_unwind
{
    m.lock()
}

/// `MutexGuard::deref_mut`: the state behind a held mutex, to be changed in place.
#[verifier::external_body]
pub(crate) fn state_mut<'b, 'a, S>(g: &'b mut MutexGuard<'a, S>) -> (s: &'b mut S)
    opens_invariants none
    no_unwind
{
    g.deref_mut()
}

/// `Condvar::wait_while`: gives the mutex up and sleeps until `blocked` is
/// false of the state, or until the mutex is found poisoned. The standard
/// library lets the call panic where one condition variable is used with
/// more than one mutex; this crate keeps each beside its one mutex.
#[verifier::external_body]
pub(crate) fn wait_while<'a, S, F: Fn(&S) -> bool>(
    cond: &Condvar,
    g: MutexGuard<'a, S>,
    blocked: F,
) -> (r: LockResult<MutexGuard<'a, S>>)
    requires
        forall|s: &S| #[trigger] blocked.requires((s,)),
{
    cond.wait_while(g, |s| blocked(s))
}

/// `Condvar::wait_timeout_while`: as `wait_while`, for at most `limit`.
#[verifier::external_body]
pub(crate) fn wait_timeout_while<'a, S, F: Fn(&S) -> bool>(
    cond: &Condvar,
    g: MutexGuard<'a, S>,
    limit: Duration,
    blocked: F,
) -> (r: LockResult<(MutexGuard<'a, S>, WaitTimeoutResult)>)
    requires
        forall|s: &S| #[trigger] blocked.requires((s,)),
{
    cond.wait_timeout_while(g, limit, |s| blocked(s))
}

/// `Condvar::notify_one`: wakes one thread that waits on the condition variable.
#[verifier::external_body]
pub(crate) fn notify_one(cond: &Condvar)
    opens_invariants none
    no_unwind
{
    cond.notify_one()
}

/// `Condvar::notify_all`: wakes every thread that waits on the condition variable.
#[verifier::external_body]
pub(crate) fn notify_all(cond: &Condvar)
    opens_invariants none
    no_unwind
{
    cond.notify_all()
}

/// `RwLock::new`: a lock around `value`.
#[verifier::external_body]
pub(crate) fn new_rwlock<T>(value: T) -> (l: RwLock<T>) {
    RwLock::new(value)
}

/// `RwLock::into_inner`: the value that the lock holds.
#[verifier::external_body]
pub(crate) fn rwlock_into_inner<T>(l: RwLock<T>) -> (value: LockResult<T>) {
    l.into_inner()
}

/// `RwLock::get_mut`: the value that the lock holds, to be changed in place.
#[verifier::external_body]
pub(crate) fn rwlock_get_mut<'a, T>(l: &'a mut RwLock<T>) -> (value: LockResult<&'a mut T>) {
    l.get_mut()
}

/// `RwLock::read`: blocks until shared access to the value is held. The
/// standard library lets the call panic where the calling thread holds the
/// lock already.
#[verifier::external_body]
pub(crate) fn read_data<'a, T>(l: &'a RwLock<T>) -> (g: LockResult<RwLockReadGuard<'a, T>>) {
    l.read()
}

/// `RwLock::write`: blocks until exclusive access to the value is held. The
/// standard library lets the call panic where the calling thread holds the
/// lock already.
#[verifier::external_body]
pub(crate) fn write_data<'a, T>(l: &'a RwLock<T>) -> (g: LockResult<RwLockWriteGuard<'a, T>>) {
    l.write()
}

/// `RwLock::try_write`: exclusive access to the value if nobody holds any, and
/// nothing otherwise; never blocks.
#[verifier::external_body]
pub(crate) fn try_write_data<'a, T>(l: &'a RwLock<T>) -> (g: Option<
    LockResult<RwLockWriteGuard<'a, T>>,
>) {
    match l.try_write() {
        Ok(g) => Some(Ok(g)),
        Err(TryLockError::Poisoned(e)) => Some(Err(e)),
        Err(TryLockError::WouldBlock) => None,
    }
}

/// `RwLockReadGuard::deref`: the value behind shared access.
#[verifier::external_body]
pub(crate) fn shared_target<'b, 'a, T>(g: &'b RwLockReadGuard<'a, T>) -> (value: &'b T) {
    g.deref()
}

/// `RwLockWriteGuard::deref`: the value behind exclusive access.
#[verifier::external_body]
pub(crate) fn exclusive_target<'b, 'a, T>(g: &'b RwLockWriteGuard<'a, T>) -> (value: &'b T) {
    g.deref()
}

/// `RwLockWriteGuard::deref_mut`: the value behind exclusive access, to be
/// changed in place.
#[verifier::external_body]
pub(crate) fn exclusive_target_mut<'b, 'a, T>(g: &'b mut RwLockWriteGuard<'a, T>) -> (value:
    &'b mut T) {
    g.deref_mut()
}

/// `RwLockWriteGuard::downgrade`: turns exclusive access into shared access
/// without giving the lock up in between.
#[verifier::external_body]
pub(crate) fn downgrade_data<'a, T>(g: RwLockWriteGuard<'a, T>) -> (r: RwLockReadGuard<'a, T>) {
    RwLockWriteGuard::downgrade(g)
}

/// `OnceLock::new`: an empty cell.
#[verifier::external_body]
pub(crate) fn new_slot<T>() -> (slot: OnceLock<T>) {
    OnceLock::new()
}

/// `OnceLock::set`: stores `value` if the cell is empty; hands it back if not.
#[verifier::external_body]
pub(crate) fn fill_slot<T>(slot: &OnceLock<T>, value: T) -> (refused: Result<(), T>) {
    slot.set(value)
}

/// `OnceLock::get`: the value of the cell, if it has one.
#[verifier::external_body]
pub(crate) fn slot_value<'a, T>(slot: &'a OnceLock<T>) -> (value: Option<&'a T>) {
    slot.get()
}

/// `OnceLock::wait`: blocks until the cell has a value, and returns it.
#[verifier::external_body]
pub(crate) fn await_slot<'a, T>(slot: &'a OnceLock<T>) -> (value: &'a T) {
    slot.wait()
}

/// `OnceLock::into_inner`: takes the cell apart and returns its value, if it
/// has one.
#[verifier::external_body]
pub(crate) fn slot_into_inner<T>(slot: OnceLock<T>) -> (value: Option<T>) {
    slot.into_inner()
}

/// `AtomicBool::store` with release ordering: publishes `value` together with
/// everything the calling thread wrote before.
#[verifier::external_body]
pub(crate) fn store_release(flag: &AtomicBool, value: bool)
    opens_invariants none
    no_unwind
{
    flag.store(value, Ordering::Release)
}

/// `std::mem::drop`: gives up whatever `value` holds.
pub assume_specification<T>[ std::mem::drop::<T> ](value: T);

} // verus!
