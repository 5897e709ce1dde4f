//! One handle for a lock of any moderator, chosen when the program runs.
//!
//! A [`PolyLock`] is a lock of one of the three moderators, and its guards are
//! guards of that lock under one type. Each keeps the release discipline of
//! the guard inside: dropping it gives the place back to the moderator that
//! made it.

use crate::xlock::arrival_ordered::ArrivalOrdered;
use crate::xlock::moderator::Spec;
use crate::xlock::read_biased::ReadBiased;
use crate::xlock::Held;
use crate::xlock::write_biased::WriteBiased;
use crate::xlock::LockReadGuard;
use crate::xlock::LockWriteGuard;
use crate::xlock::UpgradeOutcome;
use crate::xlock::XLock;
use std::ops::Deref;
use std::ops::DerefMut;
use std::time::Duration;
use vstd::prelude::*;

verus! {

/// The moderators there are.
#[derive(Clone, Copy, Debug, PartialEq, Eq, Structural)]
pub enum ModeratorKind {
    ReadBiased,
    WriteBiased,
    ArrivalOrdered,
}

/// A lock of any moderator.
#[verifier::reject_recursive_types(T)]
pub enum PolyLock<T> {
    ReadBiased(XLock<T, ReadBiased>),
    WriteBiased(XLock<T, WriteBiased>),
    ArrivalOrdered(XLock<T, ArrivalOrdered>),
}

/// A lock of any moderator, on the heap.
pub type LockBox<T> = Box<PolyLock<T>>;

/// A lock of any moderator, on the heap, that can be taken apart for its value.
pub type LockBoxSized<T> = Box<PolyLock<T>>;

/// A read guard of one of the moderators.
#[verifier::reject_recursive_types(T)]
enum AnyReadGuard<'a, T> {
    ReadBiased(LockReadGuard<'a, T, ReadBiased>),
    WriteBiased(LockReadGuard<'a, T, WriteBiased>),
    ArrivalOrdered(LockReadGuard<'a, T, ArrivalOrdered>),
}

/// A write guard of one of the moderators.
#[verifier::reject_recursive_types(T)]
enum AnyWriteGuard<'a, T> {
    ReadBiased(LockWriteGuard<'a, T, ReadBiased>),
    WriteBiased(LockWriteGuard<'a, T, WriteBiased>),
    ArrivalOrdered(LockWriteGuard<'a, T, ArrivalOrdered>),
}

/// A read guard of a lock of any moderator, on the heap.
#[verifier::reject_recursive_types(T)]
pub struct DynLockReadGuard<'a, T>(Box<AnyReadGuard<'a, T>>);

/// A write guard of a lock of any moderator, on the heap.
#[verifier::reject_recursive_types(T)]
pub struct DynLockWriteGuard<'a, T>(Box<AnyWriteGuard<'a, T>>);

/// A moderator that a [`PolyLock`] can be made of.
pub trait Moderator: Spec + Sized {
    /// Which of the moderators this is.
    spec fn moderator_kind() -> ModeratorKind;

    /// The lock as a lock of any moderator.
    fn erase_lock<T>(lock: XLock<T, Self>) -> (r: PolyLock<T>)
        ensures
            r.kind() == Self::moderator_kind(),
    ;

    /// The guard as a read guard of any moderator.
    fn erase_read<'a, T>(guard: LockReadGuard<'a, T, Self>) -> (r: DynLockReadGuard<'a, T>)
        ensures
            r.kind() == Self::moderator_kind(),
            r.held() == guard.held(),
    ;

    /// The guard as a write guard of any moderator.
    fn erase_write<'a, T>(guard: LockWriteGuard<'a, T, Self>) -> (r: DynLockWriteGuard<'a, T>)
        ensures
            r.kind() == Self::moderator_kind(),
            r.held() == guard.held(),
    ;
}

impl Moderator for ReadBiased {
    open spec fn moderator_kind() -> ModeratorKind {
        ModeratorKind::ReadBiased
    }

    fn erase_lock<T>(lock: XLock<T, Self>) -> (r: PolyLock<T>)
        ensures
            r == PolyLock::ReadBiased(lock),
    {
        PolyLock::ReadBiased(lock)
    }

    fn erase_read<'a, T>(guard: LockReadGuard<'a, T, Self>) -> (r: DynLockReadGuard<'a, T>) {
        DynLockReadGuard(Box::new(AnyReadGuard::ReadBiased(guard)))
    }

    fn erase_write<'a, T>(guard: LockWriteGuard<'a, T, Self>) -> (r: DynLockWriteGuard<'a, T>) {
        DynLockWriteGuard(Box::new(AnyWriteGuard::ReadBiased(guard)))
    }
}

impl Moderator for WriteBiased {
    open spec fn moderator_kind() -> ModeratorKind {
        ModeratorKind::WriteBiased
    }

    fn erase_lock<T>(lock: XLock<T, Self>) -> (r: PolyLock<T>)
        ensures
            r == PolyLock::WriteBiased(lock),
    {
        PolyLock::WriteBiased(lock)
    }

    fn erase_read<'a, T>(guard: LockReadGuard<'a, T, Self>) -> (r: DynLockReadGuard<'a, T>) {
        DynLockReadGuard(Box::new(AnyReadGuard::WriteBiased(guard)))
    }

    fn erase_write<'a, T>(guard: LockWriteGuard<'a, T, Self>) -> (r: DynLockWriteGuard<'a, T>) {
        DynLockWriteGuard(Box::new(AnyWriteGuard::WriteBiased(guard)))
    }
}

impl Moderator for ArrivalOrdered {
    open spec fn moderator_kind() -> ModeratorKind {
        ModeratorKind::ArrivalOrdered
    }

    fn erase_lock<T>(lock: XLock<T, Self>) -> (r: PolyLock<T>)
        ensures
            r == PolyLock::ArrivalOrdered(lock),
    {
        PolyLock::ArrivalOrdered(lock)
    }

    fn erase_read<'a, T>(guard: LockReadGuard<'a, T, Self>) -> (r: DynLockReadGuard<'a, T>) {
        DynLockReadGuard(Box::new(AnyReadGuard::ArrivalOrdered(guard)))
    }

    fn erase_write<'a, T>(guard: LockWriteGuard<'a, T, Self>) -> (r: DynLockWriteGuard<'a, T>) {
        DynLockWriteGuard(Box::new(AnyWriteGuard::ArrivalOrdered(guard)))
    }
}

/// A read guard that can be turned into a write guard.
pub trait LockReadGuardlike<'a, T>: Deref<Target = T> {
    /// Which moderator counts the guard.
    spec fn counted_by(&self) -> ModeratorKind;

    /// What the guard holds in its moderator's count.
    spec fn holds(&self) -> Held;

    /// Turns the guard into a write guard, waiting until it is the only holder.
    fn upgrade(self) -> (w: DynLockWriteGuard<'a, T>)
        ensures
            w.kind() == self.counted_by(),
            w.held() != Held::Read,
            self.holds() != Held::Read ==> w.held() == Held::Nothing,
    ;

    /// Turns the guard into a write guard if it becomes the only holder
    /// within `duration`; otherwise hands the read guard back.
    fn try_upgrade(self, duration: Duration) -> (out: UpgradeOutcome<
        DynLockWriteGuard<'a, T>,
        DynLockReadGuard<'a, T>,
    >)
        ensures
            match out {
                UpgradeOutcome::Upgraded(w) => {
                    &&& w.kind() == self.counted_by()
                    &&& self.holds() == Held::Read
                    &&& w.held() == Held::Write
                },
                UpgradeOutcome::Unchanged(r) => {
                    &&& r.kind() == self.counted_by()
                    &&& r.held() == self.holds()
                },
            },
    ;
}

/// A write guard that can be turned into a read guard.
pub trait LockWriteGuardlike<'a, T>: DerefMut<Target = T> {
    /// Which moderator counts the guard.
    spec fn counted_by(&self) -> ModeratorKind;

    /// What the guard holds in its moderator's count.
    spec fn holds(&self) -> Held;

    /// Turns the guard into a read guard without giving the lock up in between.
    fn downgrade(self) -> (r: DynLockReadGuard<'a, T>)
        ensures
            r.kind() == self.counted_by(),
            self.holds() != Held::Write ==> r.held() == Held::Nothing,
            r.held() != Held::Write,
    ;
}

/// A reader-writer lock, whatever its moderator.
pub trait Locklike<'a, T>: Sync + Send {
    type R: LockReadGuardlike<'a, T>;

    type W: LockWriteGuardlike<'a, T>;

    /// Waits until a reader is admitted and returns a read guard.
    fn read(&'a self) -> Self::R;

    /// Returns a read guard if a reader is admitted within `duration`.
    fn try_read(&'a self, duration: Duration) -> Option<Self::R>;

    /// Waits until a writer is admitted and returns a write guard.
    fn write(&'a self) -> Self::W;

    /// Returns a write guard if a writer is admitted within `duration`.
    fn try_write(&'a self, duration: Duration) -> Option<Self::W>;

    /// The value, to be changed in place; nothing is locked.
    fn get_mut(&mut self) -> &mut T;
}

/// A reader-writer lock on the heap that can be taken apart for its value.
pub trait LocklikeSized<'a, T>: Locklike<'a, T> {
    /// Takes the lock apart and returns its value.
    fn into_inner(self: Box<Self>) -> T;
}

impl<'a, T: Sync + Send + 'a, M: Moderator + 'a> Locklike<'a, T> for XLock<T, M> where
    M::Sync: Sync + Send,
 {
    type R = LockReadGuard<'a, T, M>;

    type W = LockWriteGuard<'a, T, M>;

    fn read(&'a self) -> (guard: LockReadGuard<'a, T, M>)
        ensures
            guard.guards(self),
            guard.held() != Held::Write,
    {
        self.read()
    }

    fn try_read(&'a self, duration: Duration) -> (guard: Option<LockReadGuard<'a, T, M>>)
        ensures
            guard matches Some(g) ==> g.guards(self) && g.held() == Held::Read,
    {
        self.try_read(duration)
    }

    fn write(&'a self) -> (guard: LockWriteGuard<'a, T, M>)
        ensures
            guard.guards(self),
            guard.held() != Held::Read,
    {
        self.write()
    }

    fn try_write(&'a self, duration: Duration) -> (guard: Option<LockWriteGuard<'a, T, M>>)
        ensures
            guard matches Some(g) ==> g.guards(self) && g.held() == Held::Write,
    {
        self.try_write(duration)
    }

    fn get_mut(&mut self) -> &mut T {
        self.get_mut()
    }
}

impl<T, M: Moderator> XLock<T, M> {
    /// Takes the lock apart and returns its value.
    fn lock_into_inner(self) -> T {
        self.into_inner()
    }
}

impl<'a, T: Sync + Send + 'a, M: Moderator + 'a> LocklikeSized<'a, T> for XLock<T, M> where
    M::Sync: Sync + Send,
 {
    fn into_inner(self: Box<Self>) -> T {
        let lock: XLock<T, M> = *self;
        lock.lock_into_inner()
    }
}

impl<'a, T, M: Moderator> LockReadGuardlike<'a, T> for LockReadGuard<'a, T, M> {
    open spec fn counted_by(&self) -> ModeratorKind {
        M::moderator_kind()
    }

    open spec fn holds(&self) -> Held {
        self.held()
    }

    fn upgrade(self) -> DynLockWriteGuard<'a, T> {
        M::erase_write(self.upgrade())
    }

    fn try_upgrade(self, duration: Duration) -> UpgradeOutcome<
        DynLockWriteGuard<'a, T>,
        DynLockReadGuard<'a, T>,
    > {
        match self.try_upgrade(duration) {
            UpgradeOutcome::Upgraded(w) => UpgradeOutcome::Upgraded(M::erase_write(w)),
            UpgradeOutcome::Unchanged(r) => UpgradeOutcome::Unchanged(M::erase_read(r)),
        }
    }
}

impl<'a, T, M: Moderator> LockWriteGuardlike<'a, T> for LockWriteGuard<'a, T, M> {
    open spec fn counted_by(&self) -> ModeratorKind {
        M::moderator_kind()
    }

    open spec fn holds(&self) -> Held {
        self.held()
    }

    fn downgrade(self) -> DynLockReadGuard<'a, T> {
        M::erase_read(self.downgrade())
    }
}

impl<T> PolyLock<T> {
    /// Which moderator schedules the lock.
    pub open spec fn kind(&self) -> ModeratorKind {
        match self {
            PolyLock::ReadBiased(_) => ModeratorKind::ReadBiased,
            PolyLock::WriteBiased(_) => ModeratorKind::WriteBiased,
            PolyLock::ArrivalOrdered(_) => ModeratorKind::ArrivalOrdered,
        }
    }

    /// Which moderator schedules the lock.
    pub fn moderator(&self) -> (k: ModeratorKind)
        ensures
            k == self.kind(),
    {
        match self {
            PolyLock::ReadBiased(_) => ModeratorKind::ReadBiased,
            PolyLock::WriteBiased(_) => ModeratorKind::WriteBiased,
            PolyLock::ArrivalOrdered(_) => ModeratorKind::ArrivalOrdered,
        }
    }
}

impl<'a, T: Sync + Send + 'a> Locklike<'a, T> for PolyLock<T> {
    type R = DynLockReadGuard<'a, T>;

    type W = DynLockWriteGuard<'a, T>;

    fn read(&'a self) -> (guard: DynLockReadGuard<'a, T>)
        ensures
            guard.kind() == self.kind(),
            guard.guards(self),
            guard.held() != Held::Write,
    {
        match self {
            PolyLock::ReadBiased(lock) => DynLockReadGuard(
                Box::new(AnyReadGuard::ReadBiased(lock.read())),
            ),
            PolyLock::WriteBiased(lock) => DynLockReadGuard(
                Box::new(AnyReadGuard::WriteBiased(lock.read())),
            ),
            PolyLock::ArrivalOrdered(lock) => DynLockReadGuard(
                Box::new(AnyReadGuard::ArrivalOrdered(lock.read())),
            ),
        }
    }

    fn try_read(&'a self, duration: Duration) -> (guard: Option<DynLockReadGuard<'a, T>>)
        ensures
            guard matches Some(g) ==> g.kind() == self.kind() && g.guards(self) && g.held()
                == Held::Read,
    {
        match self {
            PolyLock::ReadBiased(lock) => match lock.try_read(duration) {
                Some(g) => Some(DynLockReadGuard(Box::new(AnyReadGuard::ReadBiased(g)))),
                None => None,
            },
            PolyLock::WriteBiased(lock) => match lock.try_read(duration) {
                Some(g) => Some(DynLockReadGuard(Box::new(AnyReadGuard::WriteBiased(g)))),
                None => None,
            },
            PolyLock::ArrivalOrdered(lock) => match lock.try_read(duration) {
                Some(g) => Some(DynLockReadGuard(Box::new(AnyReadGuard::ArrivalOrdered(g)))),
                None => None,
            },
        }
    }

    fn write(&'a self) -> (guard: DynLockWriteGuard<'a, T>)
        ensures
            guard.kind() == self.kind(),
            guard.guards(self),
            guard.held() != Held::Read,
    {
        match self {
            PolyLock::ReadBiased(lock) => DynLockWriteGuard(
                Box::new(AnyWriteGuard::ReadBiased(lock.write())),
            ),
            PolyLock::WriteBiased(lock) => DynLockWriteGuard(
                Box::new(AnyWriteGuard::WriteBiased(lock.write())),
            ),
            PolyLock::ArrivalOrdered(lock) => DynLockWriteGuard(
                Box::new(AnyWriteGuard::ArrivalOrdered(lock.write())),
            ),
        }
    }

    fn try_write(&'a self, duration: Duration) -> (guard: Option<DynLockWriteGuard<'a, T>>)
        ensures
            guard matches Some(g) ==> g.kind() == self.kind() && g.guards(self) && g.held()
                == Held::Write,
    {
        match self {
            PolyLock::ReadBiased(lock) => match lock.try_write(duration) {
                Some(g) => Some(DynLockWriteGuard(Box::new(AnyWriteGuard::ReadBiased(g)))),
                None => None,
            },
            PolyLock::WriteBiased(lock) => match lock.try_write(duration) {
                Some(g) => Some(DynLockWriteGuard(Box::new(AnyWriteGuard::WriteBiased(g)))),
                None => None,
            },
            PolyLock::ArrivalOrdered(lock) => match lock.try_write(duration) {
                Some(g) => Some(DynLockWriteGuard(Box::new(AnyWriteGuard::ArrivalOrdered(g)))),
                None => None,
            },
        }
    }

    fn get_mut(&mut self) -> &mut T {
        match self {
            PolyLock::ReadBiased(lock) => lock.get_mut(),
            PolyLock::WriteBiased(lock) => lock.get_mut(),
            PolyLock::ArrivalOrdered(lock) => lock.get_mut(),
        }
    }
}

impl<'a, T: Sync + Send + 'a> LocklikeSized<'a, T> for PolyLock<T> {
    fn into_inner(self: Box<Self>) -> T {
        let lock: PolyLock<T> = *self;
        match lock {
            PolyLock::ReadBiased(lock) => lock.into_inner(),
            PolyLock::WriteBiased(lock) => lock.into_inner(),
            PolyLock::ArrivalOrdered(lock) => lock.into_inner(),
        }
    }
}

impl<'a, T> DynLockReadGuard<'a, T> {
    /// Which moderator counts the guard.
    pub closed spec fn kind(&self) -> ModeratorKind {
        match *self.0 {
            AnyReadGuard::ReadBiased(_) => ModeratorKind::ReadBiased,
            AnyReadGuard::WriteBiased(_) => ModeratorKind::WriteBiased,
            AnyReadGuard::ArrivalOrdered(_) => ModeratorKind::ArrivalOrdered,
        }
    }

    /// What the guard holds in its moderator's count.
    pub closed spec fn held(&self) -> Held {
        match *self.0 {
            AnyReadGuard::ReadBiased(g) => g.held(),
            AnyReadGuard::WriteBiased(g) => g.held(),
            AnyReadGuard::ArrivalOrdered(g) => g.held(),
        }
    }

    /// Whether the guard gives access to the value of `lock`.
    pub closed spec fn guards(&self, lock: &PolyLock<T>) -> bool {
        match (*self.0, *lock) {
            (AnyReadGuard::ReadBiased(g), PolyLock::ReadBiased(l)) => g.guards(&l),
            (AnyReadGuard::WriteBiased(g), PolyLock::WriteBiased(l)) => g.guards(&l),
            (AnyReadGuard::ArrivalOrdered(g), PolyLock::ArrivalOrdered(l)) => g.guards(&l),
            _ => false,
        }
    }

    /// Whether the moderator counts the guard as a reader.
    pub fn is_counted(&self) -> (b: bool)
        ensures
            b == (self.held() == Held::Read),
    {
        match &*self.0 {
            AnyReadGuard::ReadBiased(g) => g.is_counted(),
            AnyReadGuard::WriteBiased(g) => g.is_counted(),
            AnyReadGuard::ArrivalOrdered(g) => g.is_counted(),
        }
    }

    /// Which moderator counts the guard.
    pub fn moderator(&self) -> (k: ModeratorKind)
        ensures
            k == self.kind(),
    {
        match &*self.0 {
            AnyReadGuard::ReadBiased(_) => ModeratorKind::ReadBiased,
            AnyReadGuard::WriteBiased(_) => ModeratorKind::WriteBiased,
            AnyReadGuard::ArrivalOrdered(_) => ModeratorKind::ArrivalOrdered,
        }
    }

    /// Turns the guard into a write guard if it becomes the only holder of
    /// the lock within `duration`, without giving the lock up in between.
    /// Otherwise the guard comes back as it was.
    pub fn try_upgrade(self, duration: Duration) -> (out: UpgradeOutcome<
        DynLockWriteGuard<'a, T>,
        DynLockReadGuard<'a, T>,
    >)
        ensures
            match out {
                UpgradeOutcome::Upgraded(w) => {
                    &&& w.kind() == self.kind()
                    &&& self.held() == Held::Read
                    &&& w.held() == Held::Write
                    &&& forall|lock: &PolyLock<T>| #[trigger] self.guards(lock) ==> w.guards(lock)
                },
                UpgradeOutcome::Unchanged(r) => r == self,
            },
    {
        let inner: AnyReadGuard<'a, T> = *self.0;
        match inner {
            AnyReadGuard::ReadBiased(g) => match g.try_upgrade(duration) {
                UpgradeOutcome::Upgraded(w) => UpgradeOutcome::Upgraded(
                    DynLockWriteGuard(Box::new(AnyWriteGuard::ReadBiased(w))),
                ),
                UpgradeOutcome::Unchanged(r) => UpgradeOutcome::Unchanged(
                    DynLockReadGuard(Box::new(AnyReadGuard::ReadBiased(r))),
                ),
            },
            AnyReadGuard::WriteBiased(g) => match g.try_upgrade(duration) {
                UpgradeOutcome::Upgraded(w) => UpgradeOutcome::Upgraded(
                    DynLockWriteGuard(Box::new(AnyWriteGuard::WriteBiased(w))),
                ),
                UpgradeOutcome::Unchanged(r) => UpgradeOutcome::Unchanged(
                    DynLockReadGuard(Box::new(AnyReadGuard::WriteBiased(r))),
                ),
            },
            AnyReadGuard::ArrivalOrdered(g) => match g.try_upgrade(duration) {
                UpgradeOutcome::Upgraded(w) => UpgradeOutcome::Upgraded(
                    DynLockWriteGuard(Box::new(AnyWriteGuard::ArrivalOrdered(w))),
                ),
                UpgradeOutcome::Unchanged(r) => UpgradeOutcome::Unchanged(
                    DynLockReadGuard(Box::new(AnyReadGuard::ArrivalOrdered(r))),
                ),
            },
        }
    }
}

impl<'a, T> Deref for DynLockReadGuard<'a, T> {
    type Target = T;

    fn deref(&self) -> &T {
        match &*self.0 {
            AnyReadGuard::ReadBiased(g) => g.deref(),
            AnyReadGuard::WriteBiased(g) => g.deref(),
            AnyReadGuard::ArrivalOrdered(g) => g.deref(),
        }
    }
}

impl<'a, T> LockReadGuardlike<'a, T> for DynLockReadGuard<'a, T> {
    open spec fn counted_by(&self) -> ModeratorKind {
        self.kind()
    }

    open spec fn holds(&self) -> Held {
        self.held()
    }

    fn upgrade(self) -> (w: DynLockWriteGuard<'a, T>)
        ensures
            w.kind() == self.kind(),
            w.held() != Held::Read,
            self.held() != Held::Read ==> w.held() == Held::Nothing,
            forall|lock: &PolyLock<T>| #[trigger] self.guards(lock) ==> w.guards(lock),
    {
        let inner: AnyReadGuard<'a, T> = *self.0;
        match inner {
            AnyReadGuard::ReadBiased(g) => DynLockWriteGuard(
                Box::new(AnyWriteGuard::ReadBiased(g.upgrade())),
            ),
            AnyReadGuard::WriteBiased(g) => DynLockWriteGuard(
                Box::new(AnyWriteGuard::WriteBiased(g.upgrade())),
            ),
            AnyReadGuard::ArrivalOrdered(g) => DynLockWriteGuard(
                Box::new(AnyWriteGuard::ArrivalOrdered(g.upgrade())),
            ),
        }
    }

    fn try_upgrade(self, duration: Duration) -> (out: UpgradeOutcome<
        DynLockWriteGuard<'a, T>,
        DynLockReadGuard<'a, T>,
    >)
        ensures
            match out {
                UpgradeOutcome::Upgraded(w) => {
                    &&& w.kind() == self.kind()
                    &&& self.held() == Held::Read
                    &&& w.held() == Held::Write
                    &&& forall|lock: &PolyLock<T>| #[trigger] self.guards(lock) ==> w.guards(lock)
                },
                UpgradeOutcome::Unchanged(r) => r == self,
            },
    {
        self.try_upgrade(duration)
    }
}

impl<'a, T> DynLockWriteGuard<'a, T> {
    /// Which moderator counts the guard.
    pub closed spec fn kind(&self) -> ModeratorKind {
        match *self.0 {
            AnyWriteGuard::ReadBiased(_) => ModeratorKind::ReadBiased,
            AnyWriteGuard::WriteBiased(_) => ModeratorKind::WriteBiased,
            AnyWriteGuard::ArrivalOrdered(_) => ModeratorKind::ArrivalOrdered,
        }
    }

    /// What the guard holds in its moderator's count.
    pub closed spec fn held(&self) -> Held {
        match *self.0 {
            AnyWriteGuard::ReadBiased(g) => g.held(),
            AnyWriteGuard::WriteBiased(g) => g.held(),
            AnyWriteGuard::ArrivalOrdered(g) => g.held(),
        }
    }

    /// Whether the guard gives access to the value of `lock`.
    pub closed spec fn guards(&self, lock: &PolyLock<T>) -> bool {
        match (*self.0, *lock) {
            (AnyWriteGuard::ReadBiased(g), PolyLock::ReadBiased(l)) => g.guards(&l),
            (AnyWriteGuard::WriteBiased(g), PolyLock::WriteBiased(l)) => g.guards(&l),
            (AnyWriteGuard::ArrivalOrdered(g), PolyLock::ArrivalOrdered(l)) => g.guards(&l),
            _ => false,
        }
    }

    /// Whether the moderator records the guard as the writer.
    pub fn is_counted(&self) -> (b: bool)
        ensures
            b == (self.held() == Held::Write),
    {
        match &*self.0 {
            AnyWriteGuard::ReadBiased(g) => g.is_counted(),
            AnyWriteGuard::WriteBiased(g) => g.is_counted(),
            AnyWriteGuard::ArrivalOrdered(g) => g.is_counted(),
        }
    }

    /// Which moderator counts the guard.
    pub fn moderator(&self) -> (k: ModeratorKind)
        ensures
            k == self.kind(),
    {
        match &*self.0 {
            AnyWriteGuard::ReadBiased(_) => ModeratorKind::ReadBiased,
            AnyWriteGuard::WriteBiased(_) => ModeratorKind::WriteBiased,
            AnyWriteGuard::ArrivalOrdered(_) => ModeratorKind::ArrivalOrdered,
        }
    }
}

impl<'a, T> Deref for DynLockWriteGuard<'a, T> {
    type Target = T;

    fn deref(&self) -> &T {
        match &*self.0 {
            AnyWriteGuard::ReadBiased(g) => g.deref(),
            AnyWriteGuard::WriteBiased(g) => g.deref(),
            AnyWriteGuard::ArrivalOrdered(g) => g.deref(),
        }
    }
}

impl<'a, T> DerefMut for DynLockWriteGuard<'a, T> {
    fn deref_mut(&mut self) -> &mut T {
        match &mut *self.0 {
            AnyWriteGuard::ReadBiased(g) => g.deref_mut(),
            AnyWriteGuard::WriteBiased(g) => g.deref_mut(),
            AnyWriteGuard::ArrivalOrdered(g) => g.deref_mut(),
        }
    }
}

impl<'a, T> LockWriteGuardlike<'a, T> for DynLockWriteGuard<'a, T> {
    open spec fn counted_by(&self) -> ModeratorKind {
        self.kind()
    }

    open spec fn holds(&self) -> Held {
        self.held()
    }

    fn downgrade(self) -> (r: DynLockReadGuard<'a, T>)
        ensures
            r.kind() == self.kind(),
            self.held() != Held::Write ==> r.held() == Held::Nothing,
            r.held() != Held::Write,
            forall|lock: &PolyLock<T>| #[trigger] self.guards(lock) ==> r.guards(lock),
    {
        let inner: AnyWriteGuard<'a, T> = *self.0;
        match inner {
            AnyWriteGuard::ReadBiased(g) => DynLockReadGuard(
                Box::new(AnyReadGuard::ReadBiased(g.downgrade())),
            ),
            AnyWriteGuard::WriteBiased(g) => DynLockReadGuard(
                Box::new(AnyReadGuard::WriteBiased(g.downgrade())),
            ),
            AnyWriteGuard::ArrivalOrdered(g) => DynLockReadGuard(
                Box::new(AnyReadGuard::ArrivalOrdered(g.downgrade())),
            ),
        }
    }
}

impl ModeratorKind {
    /// A lock around `t` on the heap, scheduled by this moderator.
    pub fn make_lock_for_test<T: Sync + Send + 'static>(&self, t: T) -> (lock: LockBoxSized<T>)
        ensures
            lock.kind() == *self,
    {
        match self {
            ModeratorKind::ReadBiased => Box::new(PolyLock::ReadBiased(XLock::new(t))),
            ModeratorKind::WriteBiased => Box::new(PolyLock::WriteBiased(XLock::new(t))),
            ModeratorKind::ArrivalOrdered => Box::new(PolyLock::ArrivalOrdered(XLock::new(t))),
        }
    }
}

/// Every moderator there is, one of each.
pub const MODERATOR_KINDS: [ModeratorKind; 3] = [
    ModeratorKind::ReadBiased,
    ModeratorKind::WriteBiased,
    ModeratorKind::ArrivalOrdered,
];

} // verus!
