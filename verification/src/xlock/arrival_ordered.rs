//! The arrival-ordered moderator: every thread that asks for the lock takes a
//! ticket, and tickets are served from the head of one queue.

use crate::deadline::wait_until;
use crate::deadline::Deadline;
use crate::model::Event;
use crate::model::Holders;
use crate::sync::lock;
use crate::sync::new_condvar;
use crate::sync::new_mutex;
use crate::sync::remedy;
use crate::sync::state_mut;
use crate::xlock::moderator::notify;
use crate::xlock::moderator::Spec;
use crate::xlock::moderator::Wake;
use std::sync::Condvar;
use std::sync::Mutex;
use std::time::Duration;
use vstd::prelude::*;

verus! {

/// Selects the arrival-ordered policy.
#[derive(Debug)]
pub struct ArrivalOrdered;

/// What the holder of a ticket waits for.
#[derive(Clone, Copy, Debug, PartialEq, Eq, Structural)]
pub enum TicketKind {
    /// To read.
    Reader,
    /// To write.
    Writer,
    /// To write, while it holds the lock as a reader.
    Upgrader,
}

/// A place in the queue.
#[derive(Clone, Copy, Debug, PartialEq, Eq, Structural)]
pub struct Ticket {
    pub id: u64,
    pub kind: TicketKind,
}

/// The holders of an arrival-ordered lock, and the tickets of those who wait,
/// the next to be served first.
pub struct ArrivalOrderedState {
    readers: u32,
    writer: bool,
    queue: Vec<Ticket>,
    next_id: u64,
}

/// What the threads of an arrival-ordered lock share.
pub struct ArrivalOrderedSync {
    state: Mutex<ArrivalOrderedState>,
    cond: Condvar,
}

/// No two tickets of `q` have the same number.
pub open spec fn distinct(q: Seq<Ticket>) -> bool {
    forall|i: int, j: int| 0 <= i < j < q.len() ==> q[i].id != q[j].id
}

/// Every ticket of `q` has a number below `bound`.
pub open spec fn below(q: Seq<Ticket>, bound: nat) -> bool {
    forall|i: int| 0 <= i < q.len() ==> (#[trigger] q[i]).id < bound
}

/// Where the first ticket numbered `id` stands in `q`; the length of `q` if
/// there is none.
pub open spec fn position(q: Seq<Ticket>, id: u64) -> int
    decreases q.len(),
{
    if q.len() == 0 {
        0
    } else if q[0].id == id {
        0
    } else {
        1 + position(q.drop_first(), id)
    }
}

/// `q` without the first ticket numbered `id`, the others in their order.
pub open spec fn without(q: Seq<Ticket>, id: u64) -> Seq<Ticket> {
    if position(q, id) < q.len() {
        q.remove(position(q, id))
    } else {
        q
    }
}

/// `q` with `t` added: at the tail, or at the head where `t` belongs to a
/// reader that holds the lock and wants to become the writer.
pub open spec fn with_ticket(q: Seq<Ticket>, t: Ticket) -> Seq<Ticket> {
    if t.kind == TicketKind::Upgrader {
        q.insert(0, t)
    } else {
        q.push(t)
    }
}

/// Whether `q` holds a ticket numbered `id`.
pub open spec fn holds(q: Seq<Ticket>, id: u64) -> bool {
    exists|i: int| 0 <= i < q.len() && (#[trigger] q[i]).id == id
}

/// Whether the ticket numbered `a` stands before the one numbered `b` in `q`.
pub open spec fn before(q: Seq<Ticket>, a: u64, b: u64) -> bool {
    exists|i: int, j: int|
        0 <= i < j < q.len() && (#[trigger] q[i]).id == a && (#[trigger] q[j]).id == b
}

/// The first ticket numbered `id` stands at `i` when none before `i` has that
/// number and `i` is the end of `q` or the place of such a ticket.
pub proof fn lemma_position(q: Seq<Ticket>, id: u64, i: int)
    requires
        0 <= i <= q.len(),
        forall|j: int| 0 <= j < i ==> (#[trigger] q[j]).id != id,
        i < q.len() ==> q[i].id == id,
    ensures
        position(q, id) == i,
    decreases q.len(),
{
    if q.len() > 0 && q[0].id != id {
        let rest = q.drop_first();
        assert forall|j: int| 0 <= j < i - 1 implies (#[trigger] rest[j]).id != id by {
            assert(rest[j] == q[j + 1]);
        }
        lemma_position(rest, id, i - 1);
    }
}

impl ArrivalOrderedState {
    /// Who holds the lock.
    pub closed spec fn holders(&self) -> Holders {
        Holders { readers: self.readers as nat, writer: self.writer }
    }

    /// The tickets of those who wait, the next to be served first.
    pub closed spec fn queue(&self) -> Seq<Ticket> {
        self.queue@
    }

    /// The number that the next ticket gets.
    pub closed spec fn next(&self) -> nat {
        self.next_id as nat
    }

    /// Never a writer together with a reader; no two tickets with the same
    /// number, and none with a number still to be given out. Holds of every
    /// state there is.
    #[verifier::type_invariant]
    pub open spec fn wf(&self) -> bool {
        &&& self.holders().exclusive()
        &&& distinct(self.queue())
        &&& below(self.queue(), self.next())
    }

    /// Whether the holders admit what a ticket of `kind` waits for. (The
    /// count of readers is a `u32`; at its maximum a reader waits as well.)
    pub open spec fn admits_kind(&self, kind: TicketKind) -> bool {
        match kind {
            TicketKind::Reader => self.holders().admits_read() && self.holders().readers
                < u32::MAX,
            TicketKind::Writer => self.holders().admits_write(),
            TicketKind::Upgrader => self.holders().admits_upgrade(),
        }
    }

    /// The ticket numbered `id` is served: it stands at the head of the queue
    /// and the holders admit what it waits for.
    pub open spec fn admits(&self, id: u64) -> bool {
        &&& self.queue().len() > 0
        &&& self.queue()[0].id == id
        &&& self.admits_kind(self.queue()[0].kind)
    }

    /// Whether the ticket at the head of the queue waited in `before`
    /// without being served and is served in `self`. (A ticket of a reader
    /// that wants to become the writer counts only while a reader holds the
    /// lock, as its owner does.)
    pub open spec fn unblocks(&self, before: &Self) -> bool {
        &&& self.queue().len() > 0
        &&& holds(before.queue(), self.queue()[0].id)
        &&& self.admits(self.queue()[0].id)
        &&& !before.admits(self.queue()[0].id)
        &&& self.queue()[0].kind == TicketKind::Upgrader ==> before.holders().readers > 0
    }

    /// The holders once a ticket of `kind` has been served.
    pub open spec fn served(&self, kind: TicketKind) -> Holders {
        match kind {
            TicketKind::Reader => self.holders().read_acquired(),
            TicketKind::Writer => self.holders().write_acquired(),
            TicketKind::Upgrader => self.holders().upgraded(),
        }
    }

    /// The waiters to wake once the wait of ticket `id` has ended in the
    /// state `self`. A reader that is served wakes all if a reader is next in
    /// the queue, which is served with it. A ticket that leaves the head
    /// unserved wakes all if anyone is behind it. Otherwise nobody can have
    /// become admissible.
    pub open spec fn wake_after_wait(&self, id: u64) -> Wake {
        let q = self.queue();
        if self.admits(id) {
            if q[0].kind == TicketKind::Reader && q.len() > 1 && q[1].kind == TicketKind::Reader {
                Wake::All
            } else {
                Wake::Nobody
            }
        } else if q.len() > 1 && q[0].id == id {
            Wake::All
        } else {
            Wake::Nobody
        }
    }

    /// The waiters to wake once a reader has gone and `left` remain: all when
    /// at most one is left, since the ticket at the head may then be served;
    /// all when the count has just come off its maximum, where readers wait
    /// too.
    pub open spec fn wake_after_read(left: nat) -> Wake {
        if left <= 1 || left == u32::MAX - 1 {
            Wake::All
        } else {
            Wake::Nobody
        }
    }

    /// The state of a lock that nobody holds or waits for.
    pub fn new() -> (s: Self)
        ensures
            s.holders() == Holders::idle(),
            s.queue() == Seq::<Ticket>::empty(),
            s.next() == 0,
            s.wf(),
    {
        ArrivalOrderedState { readers: 0, writer: false, queue: Vec::new(), next_id: 0 }
    }

    /// The number of readers that hold the lock.
    pub fn readers(&self) -> (n: u32)
        ensures
            n == self.holders().readers,
    {
        self.readers
    }

    /// Whether a writer holds the lock.
    pub fn writer(&self) -> (b: bool)
        ensures
            b == self.holders().writer,
        opens_invariants none
        no_unwind
    {
        self.writer
    }

    /// Whether at least one reader holds the lock.
    pub fn has_reader(&self) -> (b: bool)
        ensures
            b == (self.holders().readers > 0),
        opens_invariants none
        no_unwind
    {
        self.readers > 0
    }

    /// The number of tickets that wait.
    pub fn waiting(&self) -> (n: usize)
        ensures
            n == self.queue().len(),
    {
        self.queue.len()
    }

    /// The ticket at place `i` of the queue, the head being place 0.
    pub fn ticket(&self, i: usize) -> (t: Option<Ticket>)
        ensures
            t == if i < self.queue().len() {
                Some(self.queue()[i as int])
            } else {
                None
            },
    {
        if i < self.queue.len() {
            Some(self.queue[i])
        } else {
            None
        }
    }

    /// Whether the holders admit what a ticket of `kind` waits for.
    fn kind_admitted(&self, kind: TicketKind) -> (b: bool)
        ensures
            b == self.admits_kind(kind),
    {
        match kind {
            TicketKind::Reader => !self.writer && self.readers < u32::MAX,
            TicketKind::Writer => !self.writer && self.readers == 0,
            TicketKind::Upgrader => !self.writer && self.readers == 1,
        }
    }

    /// Whether the holder of ticket `id` has to wait.
    pub fn blocked(&self, id: u64) -> (b: bool)
        ensures
            b == !self.admits(id),
    {
        if self.queue.len() == 0 {
            true
        } else {
            let head = self.queue[0];
            !(head.id == id && self.kind_admitted(head.kind))
        }
    }

    /// Gives out the next ticket and puts it in the queue: at the tail, or at
    /// the head for a reader that holds the lock and wants to become the
    /// writer. Fails, and changes nothing, where the numbers have run out.
    pub fn enqueue(&mut self, kind: TicketKind) -> (id: Option<u64>)
        ensures
            id is Some == (old(self).next() < u64::MAX),
            id matches Some(n) ==> {
                &&& n == old(self).next()
                &&& final(self).next() == n + 1
                &&& final(self).queue() == with_ticket(
                    old(self).queue(),
                    Ticket { id: n, kind },
                )
            },
            id is None ==> final(self).queue() == old(self).queue() && final(self).next() == old(
                self,
            ).next(),
            final(self).holders() == old(self).holders(),
            !final(self).unblocks(old(self)),
            old(self).holders().leads_to(final(self).holders()),
            final(self).wf(),
    {
        proof {
            use_type_invariant(&*self);
        }
        if self.next_id == u64::MAX {
            return None;
        }
        let n = self.next_id;
        let t = Ticket { id: n, kind };
        let ghost before = self.queue@;
        let mut queue: Vec<Ticket> = Vec::new();
        std::mem::swap(&mut self.queue, &mut queue);
        self.next_id = n + 1;
        match kind {
            TicketKind::Upgrader => {
                queue.insert(0, t);
            },
            _ => {
                queue.push(t);
            },
        }
        proof {
            lemma_arrival_keeps_numbers_apart(before, t, n as nat);
        }
        std::mem::swap(&mut self.queue, &mut queue);
        Some(n)
    }

    /// Ends the wait of the holder of ticket `id`. Where the ticket is
    /// served it leaves the head of the queue and its holder is recorded.
    /// Where it is not, it leaves the queue from wherever it stands, and
    /// nothing else changes. Says whether it was served and whom to wake.
    pub fn settle(&mut self, id: u64) -> (r: (bool, Wake))
        ensures
            r.0 == old(self).admits(id),
            r.0 ==> final(self).holders() == old(self).served(old(self).queue()[0].kind)
                && final(self).queue() == old(self).queue().drop_first(),
            !r.0 ==> final(self).holders() == old(self).holders() && final(self).queue()
                == without(old(self).queue(), id),
            r.1 == old(self).wake_after_wait(id),
            final(self).next() == old(self).next(),
            r.1 == Wake::Nobody ==> !final(self).unblocks(old(self)),
            old(self).holders().leads_to(final(self).holders()),
            final(self).wf(),
    {
        proof {
            use_type_invariant(&*self);
        }
        let ghost before = self.queue@;
        let len = self.queue.len();
        if len > 0 && self.queue[0].id == id && self.kind_admitted(self.queue[0].kind) {
            let mut queue: Vec<Ticket> = Vec::new();
            std::mem::swap(&mut self.queue, &mut queue);
            let head = queue.remove(0);
            proof {
                assert(before.remove(0) =~= before.drop_first());
                lemma_departure_keeps_numbers_apart(before, 0, self.next_id as nat);
            }
            std::mem::swap(&mut self.queue, &mut queue);
            let follows = self.queue.len() > 0 && self.queue[0].kind == TicketKind::Reader;
            match head.kind {
                TicketKind::Reader => {
                    self.readers = self.readers + 1;
                    if follows {
                        (true, Wake::All)
                    } else {
                        (true, Wake::Nobody)
                    }
                },
                TicketKind::Writer => {
                    self.writer = true;
                    (true, Wake::Nobody)
                },
                TicketKind::Upgrader => {
                    self.readers = 0;
                    self.writer = true;
                    (true, Wake::Nobody)
                },
            }
        } else {
            let mut i: usize = 0;
            while i < len && self.queue[i].id != id
                invariant
                    len == self.queue.len(),
                    self.queue@ == before,
                    0 <= i <= len,
                    forall|j: int| 0 <= j < i ==> (#[trigger] before[j]).id != id,
                    self.readers == old(self).readers,
                    self.writer == old(self).writer,
                    self.next_id == old(self).next_id,
                decreases len - i,
            {
                i = i + 1;
            }
            proof {
                lemma_position(before, id, i as int);
            }
            if i < len {
                let mut queue: Vec<Ticket> = Vec::new();
                std::mem::swap(&mut self.queue, &mut queue);
                queue.remove(i);
                proof {
                    lemma_departure_keeps_numbers_apart(before, i as int, self.next_id as nat);
                }
                std::mem::swap(&mut self.queue, &mut queue);
                if i == 0 && len > 1 {
                    (false, Wake::All)
                } else {
                    (false, Wake::Nobody)
                }
            } else {
                (false, Wake::Nobody)
            }
        }
    }

    /// Takes one reader off the count and says whom to wake.
    pub fn release_read(&mut self) -> (wake: Wake)
        requires
            old(self).holders().readers > 0,
        ensures
            final(self).holders() == old(self).holders().read_released(),
            final(self).queue() == old(self).queue(),
            final(self).next() == old(self).next(),
            wake == Self::wake_after_read(final(self).holders().readers),
            wake == Wake::Nobody ==> !final(self).unblocks(old(self)),
            old(self).holders().leads_to(final(self).holders()),
            final(self).wf(),
        opens_invariants none
        no_unwind
    {
        proof {
            use_type_invariant(&*self);
        }
        self.readers = self.readers - 1;
        if self.readers <= 1 || self.readers == u32::MAX - 1 {
            Wake::All
        } else {
            Wake::Nobody
        }
    }

    /// Takes the writer off the record; every waiter is to be woken, and the
    /// one whose ticket is at the head goes on.
    pub fn release_write(&mut self) -> (wake: Wake)
        requires
            old(self).holders().writer,
        ensures
            final(self).holders() == old(self).holders().write_released(),
            final(self).holders() == Holders::idle(),
            final(self).queue() == old(self).queue(),
            final(self).next() == old(self).next(),
            wake == Wake::All,
            old(self).holders().leads_to(final(self).holders()),
            final(self).wf(),
        opens_invariants none
        no_unwind
    {
        proof {
            use_type_invariant(&*self);
        }
        self.writer = false;
        Wake::All
    }

    /// Turns the writer into the only reader, ahead of every ticket in the
    /// queue; every waiter is to be woken, since a reader at the head may join.
    pub fn downgrade(&mut self) -> (wake: Wake)
        requires
            old(self).holders().writer,
        ensures
            final(self).holders() == old(self).holders().downgraded(),
            final(self).queue() == old(self).queue(),
            final(self).next() == old(self).next(),
            wake == Wake::All,
            old(self).holders().leads_to(final(self).holders()),
            final(self).wf(),
    {
        proof {
            use_type_invariant(&*self);
        }
        self.writer = false;
        self.readers = 1;
        Wake::All
    }
}

/// The policy serves a ticket only where the holders admit what it waits for.
pub proof fn lemma_arrival_ordered_refines(s: ArrivalOrderedState, id: u64)
    requires
        s.admits(id),
    ensures
        s.queue()[0].kind == TicketKind::Reader ==> s.holders().enables(Event::ReadAcquired),
        s.queue()[0].kind == TicketKind::Writer ==> s.holders().enables(Event::WriteAcquired),
        s.queue()[0].kind == TicketKind::Upgrader ==> s.holders().enables(Event::Upgraded),
{
}

/// Tickets are served in the order of the queue: while a ticket waits, none
/// that stands behind it is served.
pub proof fn lemma_served_in_order(s: ArrivalOrderedState, i: int, j: int)
    requires
        s.wf(),
        0 <= i < j < s.queue().len(),
    ensures
        !s.admits(s.queue()[j].id),
{
}

/// A queue that loses a ticket still has no number twice and none from
/// `bound` on.
pub proof fn lemma_departure_keeps_numbers_apart(q: Seq<Ticket>, i: int, bound: nat)
    requires
        distinct(q),
        below(q, bound),
        0 <= i < q.len(),
    ensures
        distinct(q.remove(i)),
        below(q.remove(i), bound),
{
    let after = q.remove(i);
    assert forall|a: int, b: int| 0 <= a < b < after.len() implies after[a].id != after[b].id by {
        assert(after[a] == q[if a < i { a } else { a + 1 }]);
        assert(after[b] == q[if b < i { b } else { b + 1 }]);
    }
    assert forall|a: int| 0 <= a < after.len() implies (#[trigger] after[a]).id < bound by {
        assert(after[a] == q[if a < i { a } else { a + 1 }]);
    }
}

/// A queue that gains the ticket numbered `bound` has no number twice and
/// none above `bound`.
pub proof fn lemma_arrival_keeps_numbers_apart(q: Seq<Ticket>, t: Ticket, bound: nat)
    requires
        distinct(q),
        below(q, bound),
        t.id == bound,
    ensures
        distinct(with_ticket(q, t)),
        below(with_ticket(q, t), bound + 1),
{
    let after = with_ticket(q, t);
    let shift: int = if t.kind == TicketKind::Upgrader { 1 } else { 0 };
    assert forall|a: int, b: int| 0 <= a < b < after.len() implies after[a].id != after[b].id by {
        if shift <= a && a - shift < q.len() {
            assert(after[a] == q[a - shift]);
        }
        if b - shift < q.len() {
            assert(after[b] == q[b - shift]);
        }
    }
    assert forall|a: int| 0 <= a < after.len() implies (#[trigger] after[a]).id < bound + 1 by {
        if shift <= a && a - shift < q.len() {
            assert(after[a] == q[a - shift]);
        }
    }
}

/// The place of the first ticket numbered `id` lies within `q` or at its end,
/// and what stands there within `q` has that number.
pub proof fn lemma_position_in_range(q: Seq<Ticket>, id: u64)
    ensures
        0 <= position(q, id) <= q.len(),
        position(q, id) < q.len() ==> q[position(q, id)].id == id,
    decreases q.len(),
{
    if q.len() > 0 && q[0].id != id {
        lemma_position_in_range(q.drop_first(), id);
    }
}

/// The tickets that wait keep their order among themselves: when one is
/// served from the head, one leaves from anywhere, or one arrives at either
/// end, two others that stood one before the other still do.
pub proof fn lemma_waiting_order_is_kept(
    q: Seq<Ticket>,
    after: Seq<Ticket>,
    t: Ticket,
    a: u64,
    b: u64,
)
    requires
        distinct(q),
        before(q, a, b),
        holds(after, a),
        holds(after, b),
        t.id != a,
        t.id != b,
        q.len() > 0 && after == q.drop_first() || after == without(q, t.id) || after == q.push(t)
            || after == q.insert(0, t),
    ensures
        before(after, a, b),
{
    let (i, j) = choose|i: int, j: int|
        0 <= i < j < q.len() && (#[trigger] q[i]).id == a && (#[trigger] q[j]).id == b;
    let x = choose|x: int| 0 <= x < after.len() && (#[trigger] after[x]).id == a;
    let y = choose|y: int| 0 <= y < after.len() && (#[trigger] after[y]).id == b;
    if q.len() > 0 && after == q.drop_first() {
        assert(after[x] == q[x + 1]);
        assert(after[y] == q[y + 1]);
        assert(x + 1 == i);
        assert(y + 1 == j);
    } else if after == without(q, t.id) {
        let k = position(q, t.id);
        lemma_position_in_range(q, t.id);
        if k < q.len() {
            assert(after[x] == q[if x < k { x } else { x + 1 }]);
            assert(after[y] == q[if y < k { y } else { y + 1 }]);
            assert((if x < k { x } else { x + 1 }) == i);
            assert((if y < k { y } else { y + 1 }) == j);
        } else {
            assert(x == i);
            assert(y == j);
        }
    } else if after == q.push(t) {
        assert(after[i] == q[i]);
        assert(after[j] == q[j]);
    } else {
        assert(after[i + 1] == q[i]);
        assert(after[j + 1] == q[j]);
    }
}

/// A ticket for reading or writing is queued behind every ticket that was
/// there before it, and those keep their places.
pub proof fn lemma_arrival_keeps_order(q: Seq<Ticket>, t: Ticket, i: int)
    requires
        t.kind != TicketKind::Upgrader,
        0 <= i < q.len(),
    ensures
        with_ticket(q, t)[i] == q[i],
        with_ticket(q, t)[q.len() as int] == t,
{
}

/// Readers are served in a run: when a reader is served and a reader stands
/// next in the queue, that one is served too, unless the count of readers is
/// at its maximum.
pub proof fn lemma_readers_served_together(before: ArrivalOrderedState, after: ArrivalOrderedState)
    requires
        before.wf(),
        before.queue().len() > 1,
        before.admits(before.queue()[0].id),
        before.queue()[0].kind == TicketKind::Reader,
        before.queue()[1].kind == TicketKind::Reader,
        after.holders() == before.served(TicketKind::Reader),
        after.queue() == before.queue().drop_first(),
        after.holders().readers < u32::MAX,
    ensures
        after.admits(before.queue()[1].id),
{
}

impl Spec for ArrivalOrdered {
    type Sync = ArrivalOrderedSync;

    fn new() -> ArrivalOrderedSync {
        ArrivalOrderedSync { state: new_mutex(ArrivalOrderedState::new()), cond: new_condvar() }
    }

    fn try_read(sync: &ArrivalOrderedSync, duration: Duration) -> bool {
        await_turn(sync, duration, TicketKind::Reader)
    }

    fn read_unlock(sync: &ArrivalOrderedSync) {
        let mut wake = Wake::Nobody;
        {
            let mut guard = remedy(lock(&sync.state));
            let s = state_mut(&mut guard);
            if s.has_reader() {
                wake = s.release_read();
            }
        }
        notify(&sync.cond, wake);
    }

    fn try_write(sync: &ArrivalOrderedSync, duration: Duration) -> bool {
        await_turn(sync, duration, TicketKind::Writer)
    }

    fn write_unlock(sync: &ArrivalOrderedSync) {
        let mut wake = Wake::Nobody;
        {
            let mut guard = remedy(lock(&sync.state));
            let s = state_mut(&mut guard);
            if s.writer() {
                wake = s.release_write();
            }
        }
        notify(&sync.cond, wake);
    }

    fn downgrade(sync: &ArrivalOrderedSync) -> bool {
        let mut wake = Wake::Nobody;
        let mut done = false;
        {
            let mut guard = remedy(lock(&sync.state));
            let s = state_mut(&mut guard);
            if s.writer() {
                wake = s.downgrade();
                done = true;
            }
        }
        notify(&sync.cond, wake);
        done
    }

    fn try_upgrade(sync: &ArrivalOrderedSync, duration: Duration) -> bool {
        await_turn(sync, duration, TicketKind::Upgrader)
    }
}

/// Takes a ticket of `kind`, waits for at most `duration` until it is served,
/// and takes it out of the queue either way. Returns whether it was served.
fn await_turn(sync: &ArrivalOrderedSync, duration: Duration, kind: TicketKind) -> bool {
    let mut deadline = Deadline::lazy_after(duration);
    let mut guard = remedy(lock(&sync.state));
    let id = match state_mut(&mut guard).enqueue(kind) {
        Some(id) => id,
        None => {
            return false;
        },
    };
    let mut guard = wait_until(
        &sync.cond,
        guard,
        &mut deadline,
        |s: &ArrivalOrderedState| -> (b: bool) { s.blocked(id) },
    );
    let (ok, wake) = state_mut(&mut guard).settle(id);
    std::mem::drop(guard);
    notify(&sync.cond, wake);
    ok
}

} // verus!
