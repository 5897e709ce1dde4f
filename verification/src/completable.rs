//! A cell that is filled once at most and can be waited on.

use crate::deadline::wait_until;
use crate::deadline::Deadline;
use crate::sync::await_slot;
use crate::sync::fill_slot;
use crate::sync::lock;
use crate::sync::new_condvar;
use crate::sync::new_mutex;
use crate::sync::new_slot;
use crate::sync::notify_all;
use crate::sync::remedy;
use crate::sync::slot_into_inner;
use crate::sync::slot_value;
use crate::sync::state_mut;
use std::sync::Condvar;
use std::sync::Mutex;
use std::sync::OnceLock;
use std::time::Duration;
use vstd::prelude::*;

verus! {

/// What a cell holds once `value` has been offered to it: the value it held
/// already, or else `value`.
pub open spec fn offered<T>(cell: Option<T>, value: T) -> Option<T> {
    if cell is Some {
        cell
    } else {
        Some(value)
    }
}

/// What a cell holds once each of `values` has been offered to it in turn.
pub open spec fn offered_all<T>(cell: Option<T>, values: Seq<T>) -> Option<T>
    decreases values.len(),
{
    if values.len() == 0 {
        cell
    } else {
        offered_all(offered(cell, values[0]), values.drop_first())
    }
}

/// How many of `values`, offered in turn to a cell, it takes.
pub open spec fn taken<T>(cell: Option<T>, values: Seq<T>) -> nat
    decreases values.len(),
{
    if values.len() == 0 {
        0
    } else {
        taken(offered(cell, values[0]), values.drop_first()) + if cell is None {
            1nat
        } else {
            0nat
        }
    }
}

/// A cell that holds a value takes no other, and keeps the one it holds.
pub proof fn lemma_filled_cell_stays<T>(cell: Option<T>, values: Seq<T>)
    requires
        cell is Some,
    ensures
        offered_all(cell, values) == cell,
        taken(cell, values) == 0,
    decreases values.len(),
{
    if values.len() > 0 {
        lemma_filled_cell_stays(offered(cell, values[0]), values.drop_first());
    }
}

/// Of all the values offered to an empty cell it takes exactly one, the
/// first, and holds it from then on.
pub proof fn lemma_first_offer_wins<T>(values: Seq<T>)
    requires
        values.len() > 0,
    ensures
        offered_all(None, values) == Some(values[0]),
        taken(None, values) == 1,
{
    lemma_filled_cell_stays(offered(None, values[0]), values.drop_first());
}

/// Whether a cell has been filled. It goes from empty to filled once and
/// never back.
pub struct Completion {
    filled: bool,
}

impl Completion {
    /// Whether the cell has been filled.
    pub closed spec fn filled(&self) -> bool {
        self.filled
    }

    /// The record of an empty cell.
    pub fn empty() -> (c: Self)
        ensures
            !c.filled(),
    {
        Completion { filled: false }
    }

    /// The record of a cell made with its value.
    pub fn full() -> (c: Self)
        ensures
            c.filled(),
    {
        Completion { filled: true }
    }

    /// Whether the cell has been filled.
    pub fn is_filled(&self) -> (b: bool)
        ensures
            b == self.filled(),
    {
        self.filled
    }

    /// Whether a thread that wants the value has to wait.
    pub fn pending(&self) -> (b: bool)
        ensures
            b == !self.filled(),
    {
        !self.filled
    }

    /// Marks the cell as filled and says whether the caller is the one that
    /// fills it, which is the case for the first claim only.
    pub fn claim(&mut self) -> (first: bool)
        ensures
            first == !old(self).filled(),
            final(self).filled(),
    {
        let first = !self.filled;
        self.filled = true;
        first
    }
}

/// A cell that starts out empty or filled, is filled once at most, and hands
/// out shared references to its value from then on.
#[verifier::reject_recursive_types(T)]
pub struct Completable<T> {
    slot: OnceLock<T>,
    state: Mutex<Completion>,
    cond: Condvar,
}

impl<T> Completable<T> {
    /// A cell filled with `value`.
    pub fn new(value: T) -> (cell: Self) {
        let slot = new_slot();
        let _ = fill_slot(&slot, value);
        Completable { slot, state: new_mutex(Completion::full()), cond: new_condvar() }
    }

    /// Fills the cell with `value` and wakes every thread that waits for it,
    /// if the cell is empty. Returns whether it did; where the cell was
    /// filled already, `value` is dropped and the cell keeps what it has.
    pub fn complete(&self, value: T) -> (first: bool) {
        let mut guard = remedy(lock(&self.state));
        let first = state_mut(&mut guard).claim();
        if first {
            let _ = fill_slot(&self.slot, value);
        }
        std::mem::drop(guard);
        if first {
            notify_all(&self.cond);
        }
        first
    }

    /// Fills the cell with what `producer` returns, if the cell is empty.
    /// The producer is called with the cell's state locked, so of all the
    /// producers handed to one cell at most one is ever called, and none once
    /// the cell is filled. A producer must not use the cell itself: the
    /// standard mutex may panic or block for good where the thread that holds
    /// it asks for it again.
    pub fn complete_exclusive<F: FnOnce() -> T>(&self, producer: F)
        requires
            producer.requires(()),
    {
        let mut guard = remedy(lock(&self.state));
        let s = state_mut(&mut guard);
        if s.pending() {
            let value = producer();
            let _ = fill_slot(&self.slot, value);
            s.claim();
            std::mem::drop(guard);
            notify_all(&self.cond);
        }
    }

    /// Whether the cell has a value now.
    pub fn is_complete(&self) -> (b: bool) {
        slot_value(&self.slot).is_some()
    }

    /// The value of the cell if it has one now. Never waits.
    pub fn peek(&self) -> (value: Option<&T>) {
        slot_value(&self.slot)
    }

    /// Waits until the cell has a value and returns it.
    pub fn get(&self) -> (value: &T) {
        await_slot(&self.slot)
    }

    /// Waits for at most `duration` until the cell has a value. Returns the
    /// value, or nothing where the time ran out first.
    pub fn try_get(&self, duration: Duration) -> (value: Option<&T>) {
        let mut deadline = Deadline::lazy_after(duration);
        let guard = remedy(lock(&self.state));
        let guard = wait_until(
            &self.cond,
            guard,
            &mut deadline,
            |s: &Completion| -> (b: bool) { s.pending() },
        );
        std::mem::drop(guard);
        slot_value(&self.slot)
    }

    /// Takes the cell apart and returns its value, if it has one.
    pub fn into_inner(self) -> (value: Option<T>) {
        slot_into_inner(self.slot)
    }
}

impl<T> Default for Completable<T> {
    /// An empty cell.
    fn default() -> (cell: Self) {
        Completable { slot: new_slot(), state: new_mutex(Completion::empty()), cond: new_condvar() }
    }
}

} // verus!
