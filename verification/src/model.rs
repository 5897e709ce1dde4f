//! The abstract reader-writer machine that every moderator refines: how many
//! readers hold the lock, whether a writer does, and what each event does to
//! those two.

use vstd::prelude::*;

verus! {

/// Who holds a lock.
pub struct Holders {
    pub readers: nat,
    pub writer: bool,
}

impl Holders {
    /// Nobody holds the lock.
    pub open spec fn idle() -> Holders {
        Holders { readers: 0, writer: false }
    }

    /// Never a writer together with a reader.
    pub open spec fn exclusive(self) -> bool {
        self.readers == 0 || !self.writer
    }

    /// A further reader may join: no writer holds the lock.
    pub open spec fn admits_read(self) -> bool {
        !self.writer
    }

    /// A writer may take the lock: nobody holds it.
    pub open spec fn admits_write(self) -> bool {
        !self.writer && self.readers == 0
    }

    /// A reader may become the writer: it is the only holder.
    pub open spec fn admits_upgrade(self) -> bool {
        !self.writer && self.readers == 1
    }

    /// One more reader.
    pub open spec fn read_acquired(self) -> Holders {
        Holders { readers: self.readers + 1, writer: self.writer }
    }

    /// One reader fewer.
    pub open spec fn read_released(self) -> Holders {
        Holders { readers: (self.readers - 1) as nat, writer: self.writer }
    }

    /// The writer has come.
    pub open spec fn write_acquired(self) -> Holders {
        Holders { readers: self.readers, writer: true }
    }

    /// The writer has gone.
    pub open spec fn write_released(self) -> Holders {
        Holders { readers: self.readers, writer: false }
    }

    /// The writer has become the only reader.
    pub open spec fn downgraded(self) -> Holders {
        Holders { readers: 1, writer: false }
    }

    /// The only reader has become the writer.
    pub open spec fn upgraded(self) -> Holders {
        Holders { readers: 0, writer: true }
    }
}

/// What can happen to the holders of a lock.
pub enum Event {
    /// A reader was admitted.
    ReadAcquired,
    /// A reader gave its place up.
    ReadReleased,
    /// A writer was admitted.
    WriteAcquired,
    /// The writer gave its place up.
    WriteReleased,
    /// The writer became the only reader.
    Downgraded,
    /// The only reader became the writer.
    Upgraded,
}

impl Holders {
    /// Whether `event` can happen to these holders.
    pub open spec fn enables(self, event: Event) -> bool {
        match event {
            Event::ReadAcquired => self.admits_read(),
            Event::ReadReleased => self.readers > 0,
            Event::WriteAcquired => self.admits_write(),
            Event::WriteReleased => self.writer,
            Event::Downgraded => self.writer,
            Event::Upgraded => self.admits_upgrade(),
        }
    }

    /// The holders once `event` has happened.
    pub open spec fn after(self, event: Event) -> Holders {
        match event {
            Event::ReadAcquired => self.read_acquired(),
            Event::ReadReleased => self.read_released(),
            Event::WriteAcquired => self.write_acquired(),
            Event::WriteReleased => self.write_released(),
            Event::Downgraded => self.downgraded(),
            Event::Upgraded => self.upgraded(),
        }
    }

    /// Whether `next` is what these holders are after one step of a lock:
    /// the same holders, or what an event that can happen makes of them.
    pub open spec fn leads_to(self, next: Holders) -> bool {
        ||| next == self
        ||| self.enables(Event::ReadAcquired) && next == self.after(Event::ReadAcquired)
        ||| self.enables(Event::ReadReleased) && next == self.after(Event::ReadReleased)
        ||| self.enables(Event::WriteAcquired) && next == self.after(Event::WriteAcquired)
        ||| self.enables(Event::WriteReleased) && next == self.after(Event::WriteReleased)
        ||| self.enables(Event::Downgraded) && next == self.after(Event::Downgraded)
        ||| self.enables(Event::Upgraded) && next == self.after(Event::Upgraded)
    }

    /// Whether the events of `trace` can happen one after the other.
    pub open spec fn enables_all(self, trace: Seq<Event>) -> bool
        decreases trace.len(),
    {
        trace.len() == 0 || (self.enables(trace[0]) && self.after(trace[0]).enables_all(
            trace.drop_first(),
        ))
    }

    /// The holders once the events of `trace` have happened one after the other.
    pub open spec fn after_all(self, trace: Seq<Event>) -> Holders
        decreases trace.len(),
    {
        if trace.len() == 0 {
            self
        } else {
            self.after(trace[0]).after_all(trace.drop_first())
        }
    }
}

/// How many read guards the events of `trace` have brought to life: one for
/// each reader admitted and one for each writer that became a reader.
pub open spec fn reads_begun(trace: Seq<Event>) -> nat
    decreases trace.len(),
{
    if trace.len() == 0 {
        0
    } else {
        reads_begun(trace.drop_first()) + match trace[0] {
            Event::ReadAcquired => 1nat,
            Event::Downgraded => 1nat,
            _ => 0nat,
        }
    }
}

/// How many read guards the events of `trace` have ended: one for each
/// reader's place given up and one for each reader that became the writer.
pub open spec fn reads_ended(trace: Seq<Event>) -> nat
    decreases trace.len(),
{
    if trace.len() == 0 {
        0
    } else {
        reads_ended(trace.drop_first()) + match trace[0] {
            Event::ReadReleased => 1nat,
            Event::Upgraded => 1nat,
            _ => 0nat,
        }
    }
}

/// While a writer holds the lock, no reader is admitted.
pub proof fn lemma_writer_bars_readers(h: Holders)
    requires
        h.writer,
    ensures
        !h.admits_read(),
        !h.admits_write(),
        !h.admits_upgrade(),
{
}

/// While a reader holds the lock, no writer is admitted.
pub proof fn lemma_reader_bars_writers(h: Holders)
    requires
        h.readers > 0,
    ensures
        !h.admits_write(),
{
}

/// While more than one reader holds the lock, none of them becomes the writer.
pub proof fn lemma_second_reader_bars_upgrade(h: Holders)
    requires
        h.readers > 1,
    ensures
        !h.admits_upgrade(),
{
}

/// No event that can happen brings a writer and a reader together.
pub proof fn lemma_event_keeps_exclusion(h: Holders, event: Event)
    requires
        h.exclusive(),
        h.enables(event),
    ensures
        h.after(event).exclusive(),
{
}

/// A step of a lock that changes the holders is an event that can happen.
pub proof fn lemma_step_is_an_event(h: Holders, next: Holders)
    requires
        h.leads_to(next),
        next != h,
    ensures
        exists|event: Event| #[trigger] h.enables(event) && h.after(event) == next,
{
    if h.enables(Event::ReadAcquired) && next == h.after(Event::ReadAcquired) {
    } else if h.enables(Event::ReadReleased) && next == h.after(Event::ReadReleased) {
    } else if h.enables(Event::WriteAcquired) && next == h.after(Event::WriteAcquired) {
    } else if h.enables(Event::WriteReleased) && next == h.after(Event::WriteReleased) {
    } else if h.enables(Event::Downgraded) && next == h.after(Event::Downgraded) {
    } else {
        assert(h.enables(Event::Upgraded) && next == h.after(Event::Upgraded));
    }
}

/// No step of a lock brings a writer and a reader together.
pub proof fn lemma_step_keeps_exclusion(h: Holders, next: Holders)
    requires
        h.exclusive(),
        h.leads_to(next),
    ensures
        next.exclusive(),
{
}

/// At no moment do a writer and a reader hold the lock together: whatever
/// happens to a lock that kept them apart, it still keeps them apart.
pub proof fn lemma_exclusion_holds_forever(h: Holders, trace: Seq<Event>)
    requires
        h.exclusive(),
        h.enables_all(trace),
    ensures
        h.after_all(trace).exclusive(),
    decreases trace.len(),
{
    if trace.len() > 0 {
        lemma_event_keeps_exclusion(h, trace[0]);
        lemma_exclusion_holds_forever(h.after(trace[0]), trace.drop_first());
    }
}

/// Every read guard is ended once and no more: the readers that hold the
/// lock are those whose guards have begun and not ended.
pub proof fn lemma_reads_balance(h: Holders, trace: Seq<Event>)
    requires
        h.exclusive(),
        h.enables_all(trace),
    ensures
        h.after_all(trace).readers + reads_ended(trace) == h.readers + reads_begun(trace),
    decreases trace.len(),
{
    if trace.len() > 0 {
        lemma_event_keeps_exclusion(h, trace[0]);
        lemma_reads_balance(h.after(trace[0]), trace.drop_first());
    }
}

/// A lock that everybody has left has ended as many read guards as it began.
pub proof fn lemma_idle_lock_has_no_guard_left(trace: Seq<Event>)
    requires
        Holders::idle().enables_all(trace),
        Holders::idle().after_all(trace).readers == 0,
    ensures
        reads_ended(trace) == reads_begun(trace),
{
    lemma_reads_balance(Holders::idle(), trace);
}

/// A lock together with the value it protects.
pub struct Vault<T> {
    pub holders: Holders,
    pub value: T,
}

/// What can happen to a lock and its value.
pub enum Step<T> {
    /// Something happens to the holders.
    Holder(Event),
    /// The writer stores a value.
    Stored(T),
}

impl<T> Vault<T> {
    /// Whether `step` can happen: the value is stored to by the writer only.
    pub open spec fn enables(self, step: Step<T>) -> bool {
        match step {
            Step::Holder(event) => self.holders.enables(event),
            Step::Stored(_) => self.holders.writer,
        }
    }

    /// The lock and its value once `step` has happened.
    pub open spec fn after(self, step: Step<T>) -> Vault<T> {
        match step {
            Step::Holder(event) => Vault { holders: self.holders.after(event), value: self.value },
            Step::Stored(value) => Vault { holders: self.holders, value },
        }
    }

    /// Whether the steps of `trace` can happen one after the other.
    pub open spec fn enables_all(self, trace: Seq<Step<T>>) -> bool
        decreases trace.len(),
    {
        trace.len() == 0 || (self.enables(trace[0]) && self.after(trace[0]).enables_all(
            trace.drop_first(),
        ))
    }

    /// The lock and its value once the steps of `trace` have happened.
    pub open spec fn after_all(self, trace: Seq<Step<T>>) -> Vault<T>
        decreases trace.len(),
    {
        if trace.len() == 0 {
            self
        } else {
            self.after(trace[0]).after_all(trace.drop_first())
        }
    }

    /// Whether a reader holds the lock now and after each step of `trace`.
    pub open spec fn read_throughout(self, trace: Seq<Step<T>>) -> bool
        decreases trace.len(),
    {
        self.holders.readers > 0 && (trace.len() == 0 || self.after(trace[0]).read_throughout(
            trace.drop_first(),
        ))
    }
}

/// While a read guard lives, the value stays as it is, whatever other threads do.
pub proof fn lemma_read_guard_pins_value<T>(v: Vault<T>, trace: Seq<Step<T>>)
    requires
        v.holders.exclusive(),
        v.enables_all(trace),
        v.read_throughout(trace),
    ensures
        v.after_all(trace).value == v.value,
    decreases trace.len(),
{
    if trace.len() > 0 {
        let next = v.after(trace[0]);
        match trace[0] {
            Step::Holder(event) => {
                lemma_event_keeps_exclusion(v.holders, event);
            },
            Step::Stored(_) => {},
        }
        lemma_read_guard_pins_value(next, trace.drop_first());
    }
}

/// A writer that stores `value` and then downgrades reads `value` back, and
/// so does every reader that joins it while its read guard lives.
pub proof fn lemma_downgrade_keeps_value<T>(v: Vault<T>, value: T, trace: Seq<Step<T>>)
    requires
        v.holders.exclusive(),
        v.holders.writer,
        v.after(Step::Stored(value)).after(Step::Holder(Event::Downgraded)).enables_all(trace),
        v.after(Step::Stored(value)).after(Step::Holder(Event::Downgraded)).read_throughout(trace),
    ensures
        v.enables(Step::Stored(value)),
        v.after(Step::Stored(value)).enables(Step::Holder(Event::Downgraded)),
        v.after(Step::Stored(value)).after(Step::Holder(Event::Downgraded)).value == value,
        v.after(Step::Stored(value)).after(Step::Holder(Event::Downgraded)).after_all(trace).value
            == value,
{
    let read = v.after(Step::Stored(value)).after(Step::Holder(Event::Downgraded));
    lemma_read_guard_pins_value(read, trace);
}

/// The only reader that upgrades, stores `value` and downgrades again holds
/// the lock as it did before, and reads `value`.
pub proof fn lemma_upgrade_round_trip<T>(v: Vault<T>, value: T)
    requires
        v.holders == (Holders { readers: 1, writer: false }),
    ensures
        v.enables(Step::Holder(Event::Upgraded)),
        v.after(Step::Holder(Event::Upgraded)).enables(Step::Stored(value)),
        v.after(Step::Holder(Event::Upgraded)).after(Step::Stored(value)).enables(
            Step::Holder(Event::Downgraded),
        ),
        v.after(Step::Holder(Event::Upgraded)).after(Step::Stored(value)).after(
            Step::Holder(Event::Downgraded),
        ) == (Vault { holders: v.holders, value }),
{
}

} // verus!
