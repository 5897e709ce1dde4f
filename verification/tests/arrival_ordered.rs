use libmutex::xlock::arrival_ordered::ArrivalOrdered;
use libmutex::xlock::arrival_ordered::ArrivalOrderedState;
use libmutex::xlock::arrival_ordered::Ticket;
use libmutex::xlock::arrival_ordered::TicketKind;
use libmutex::xlock::moderator::Wake;
use libmutex::xlock::Spec;
use std::time::Duration;

#[test]
fn arrival_ordered_new_state_is_idle() {
    let s = ArrivalOrderedState::new();
    assert_eq!(0, s.readers());
    assert!(!s.writer());
    assert_eq!(0, s.waiting());
    assert_eq!(None, s.ticket(0));
    assert!(s.blocked(0));
}

#[test]
fn tickets_queue_in_order_of_arrival() {
    let mut s = ArrivalOrderedState::new();
    assert_eq!(Some(0), s.enqueue(TicketKind::Writer));
    assert_eq!(Some(1), s.enqueue(TicketKind::Reader));
    assert_eq!(Some(2), s.enqueue(TicketKind::Writer));
    assert_eq!(3, s.waiting());
    assert_eq!(Some(Ticket { id: 0, kind: TicketKind::Writer }), s.ticket(0));
    assert_eq!(Some(Ticket { id: 1, kind: TicketKind::Reader }), s.ticket(1));
    assert_eq!(Some(Ticket { id: 2, kind: TicketKind::Writer }), s.ticket(2));
    assert_eq!(None, s.ticket(3));
}

#[test]
fn only_the_head_is_served() {
    let mut s = ArrivalOrderedState::new();
    let w = s.enqueue(TicketKind::Writer).unwrap();
    let r = s.enqueue(TicketKind::Reader).unwrap();
    assert!(!s.blocked(w));
    assert!(s.blocked(r));
    assert_eq!((true, Wake::Nobody), s.settle(w));
    assert!(s.writer());
    assert_eq!(1, s.waiting());
    // The reader is at the head now, but the writer holds the lock.
    assert!(s.blocked(r));
    assert_eq!(Wake::All, s.release_write());
    assert!(!s.blocked(r));
    assert_eq!((true, Wake::Nobody), s.settle(r));
    assert_eq!(1, s.readers());
    assert_eq!(0, s.waiting());
}

#[test]
fn readers_are_served_in_a_run() {
    let mut s = ArrivalOrderedState::new();
    let a = s.enqueue(TicketKind::Reader).unwrap();
    let b = s.enqueue(TicketKind::Reader).unwrap();
    let w = s.enqueue(TicketKind::Writer).unwrap();
    let c = s.enqueue(TicketKind::Reader).unwrap();
    assert_eq!((true, Wake::All), s.settle(a));
    assert!(!s.blocked(b));
    // Behind the second reader a writer is next: nobody else can go on.
    assert_eq!((true, Wake::Nobody), s.settle(b));
    assert_eq!(2, s.readers());
    assert!(s.blocked(w));
    assert!(s.blocked(c));
    assert_eq!(Wake::All, s.release_read());
    assert!(s.blocked(w));
    assert_eq!(Wake::All, s.release_read());
    assert!(!s.blocked(w));
    assert!(s.blocked(c));
}

#[test]
fn reader_behind_a_waiting_writer_waits() {
    let mut s = ArrivalOrderedState::new();
    let a = s.enqueue(TicketKind::Reader).unwrap();
    assert_eq!((true, Wake::Nobody), s.settle(a));
    let w = s.enqueue(TicketKind::Writer).unwrap();
    let c = s.enqueue(TicketKind::Reader).unwrap();
    assert!(s.blocked(w));
    assert!(s.blocked(c));
    // The reader gives up: it leaves the queue, the writer keeps its place.
    assert_eq!((false, Wake::Nobody), s.settle(c));
    assert_eq!(1, s.waiting());
    assert_eq!(Some(Ticket { id: w, kind: TicketKind::Writer }), s.ticket(0));
    assert_eq!(1, s.readers());
}

#[test]
fn ticket_that_leaves_the_head_wakes_those_behind() {
    let mut s = ArrivalOrderedState::new();
    let a = s.enqueue(TicketKind::Reader).unwrap();
    assert_eq!((true, Wake::Nobody), s.settle(a));
    let w = s.enqueue(TicketKind::Writer).unwrap();
    let c = s.enqueue(TicketKind::Reader).unwrap();
    assert_eq!((false, Wake::All), s.settle(w));
    assert_eq!(Some(Ticket { id: c, kind: TicketKind::Reader }), s.ticket(0));
    assert!(!s.blocked(c));
    assert_eq!((true, Wake::Nobody), s.settle(c));
    assert_eq!(2, s.readers());
}

#[test]
fn ticket_that_leaves_the_middle_keeps_the_order() {
    let mut s = ArrivalOrderedState::new();
    assert!(s.enqueue(TicketKind::Writer).is_some());
    assert_eq!((true, Wake::Nobody), s.settle(0));
    let a = s.enqueue(TicketKind::Writer).unwrap();
    let b = s.enqueue(TicketKind::Reader).unwrap();
    let c = s.enqueue(TicketKind::Writer).unwrap();
    let d = s.enqueue(TicketKind::Reader).unwrap();
    assert_eq!((false, Wake::Nobody), s.settle(c));
    assert_eq!(3, s.waiting());
    assert_eq!(Some(Ticket { id: a, kind: TicketKind::Writer }), s.ticket(0));
    assert_eq!(Some(Ticket { id: b, kind: TicketKind::Reader }), s.ticket(1));
    assert_eq!(Some(Ticket { id: d, kind: TicketKind::Reader }), s.ticket(2));
    // A ticket that is not in the queue leaves nothing behind.
    assert_eq!((false, Wake::Nobody), s.settle(c));
    assert_eq!(3, s.waiting());
}

#[test]
fn last_ticket_that_gives_up_wakes_nobody() {
    let mut s = ArrivalOrderedState::new();
    let a = s.enqueue(TicketKind::Writer).unwrap();
    assert_eq!((true, Wake::Nobody), s.settle(a));
    let b = s.enqueue(TicketKind::Reader).unwrap();
    assert_eq!((false, Wake::Nobody), s.settle(b));
    assert_eq!(0, s.waiting());
}

#[test]
fn upgrade_goes_to_the_head() {
    let mut s = ArrivalOrderedState::new();
    let a = s.enqueue(TicketKind::Reader).unwrap();
    let b = s.enqueue(TicketKind::Reader).unwrap();
    assert_eq!((true, Wake::All), s.settle(a));
    assert_eq!((true, Wake::Nobody), s.settle(b));
    let w = s.enqueue(TicketKind::Writer).unwrap();
    let u = s.enqueue(TicketKind::Upgrader).unwrap();
    assert_eq!(Some(Ticket { id: u, kind: TicketKind::Upgrader }), s.ticket(0));
    assert_eq!(Some(Ticket { id: w, kind: TicketKind::Writer }), s.ticket(1));
    assert!(s.blocked(u));
    assert_eq!(Wake::All, s.release_read());
    assert!(!s.blocked(u));
    assert_eq!((true, Wake::Nobody), s.settle(u));
    assert!(s.writer());
    assert_eq!(0, s.readers());
    assert!(s.blocked(w));
}

#[test]
fn downgrade_lets_the_reader_at_the_head_join() {
    let mut s = ArrivalOrderedState::new();
    let w = s.enqueue(TicketKind::Writer).unwrap();
    assert_eq!((true, Wake::Nobody), s.settle(w));
    let r = s.enqueue(TicketKind::Reader).unwrap();
    assert!(s.blocked(r));
    assert_eq!(Wake::All, s.downgrade());
    assert_eq!(1, s.readers());
    assert!(!s.writer());
    assert!(!s.blocked(r));
    assert_eq!((true, Wake::Nobody), s.settle(r));
    assert_eq!(2, s.readers());
}

#[test]
fn arrival_ordered_sync_counts_through_the_mutex() {
    let sync = ArrivalOrdered::new();
    assert!(ArrivalOrdered::try_read(&sync, Duration::ZERO));
    assert!(ArrivalOrdered::try_read(&sync, Duration::ZERO));
    assert!(!ArrivalOrdered::try_write(&sync, Duration::ZERO));
    assert!(!ArrivalOrdered::try_write(&sync, Duration::from_millis(5)));
    // The tickets of those who gave up are gone: a reader is served at once.
    assert!(ArrivalOrdered::try_read(&sync, Duration::ZERO));
    assert!(!ArrivalOrdered::try_upgrade(&sync, Duration::ZERO));
    ArrivalOrdered::read_unlock(&sync);
    ArrivalOrdered::read_unlock(&sync);
    assert!(ArrivalOrdered::try_upgrade(&sync, Duration::MAX));
    assert!(!ArrivalOrdered::try_read(&sync, Duration::ZERO));
    assert!(ArrivalOrdered::downgrade(&sync));
    ArrivalOrdered::read_unlock(&sync);
    assert!(ArrivalOrdered::try_write(&sync, Duration::MAX));
    ArrivalOrdered::write_unlock(&sync);
    assert!(ArrivalOrdered::try_read(&sync, Duration::MAX));
}
