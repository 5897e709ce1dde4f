use libmutex::completable::Completable;
use libmutex::completable::Completion;
use std::time::Duration;
use std::time::Instant;

const SHORT_WAIT: Duration = Duration::from_millis(10);

#[test]
fn complete_later() {
    let comp = Completable::default();
    assert!(!comp.is_complete());

    assert!(comp.complete(42));
    assert!(comp.is_complete());
    assert_eq!(42, *comp.get());
    assert_eq!(Some(&42), comp.peek());
    assert_eq!(Some(&42), comp.try_get(SHORT_WAIT));

    // assigning a different value should not overwrite the existing
    assert!(!comp.complete(69));
    assert!(comp.is_complete());
    assert_eq!(Some(&42), comp.peek());

    assert_eq!(Some(42), comp.into_inner())
}

#[test]
fn complete_at_init() {
    let comp = Completable::new(42);
    assert!(comp.is_complete());
    assert_eq!(42, *comp.get());
    assert_eq!(Some(&42), comp.peek());
    assert_eq!(Some(&42), comp.try_get(SHORT_WAIT));

    // assigning a different value should not overwrite the existing
    assert!(!comp.complete(69));
    assert!(comp.is_complete());
    assert_eq!(Some(&42), comp.peek());

    assert_eq!(Some(42), comp.into_inner())
}

#[test]
fn complete_exclusive() {
    let comp = Completable::default();

    let mut invoked = false;
    comp.complete_exclusive(|| {
        invoked = true;
        42
    });
    assert_eq!(42, *comp.get());
    assert!(invoked);

    invoked = false;
    comp.complete_exclusive(|| {
        invoked = true;
        69
    });
    assert_eq!(42, *comp.get());
    assert!(!invoked);
}

#[test]
fn complete_exclusive_on_a_cell_made_full() {
    let comp = Completable::new(1);
    let mut invoked = false;
    comp.complete_exclusive(|| {
        invoked = true;
        2
    });
    assert!(!invoked);
    assert_eq!(Some(&1), comp.peek());
}

#[test]
fn empty_cell_has_nothing_to_show() {
    let comp: Completable<u32> = Completable::default();
    assert_eq!(None, comp.peek());
    let start = Instant::now();
    assert_eq!(None, comp.try_get(Duration::ZERO));
    assert!(start.elapsed() < Duration::from_secs(5));
    assert!(!comp.is_complete());
    assert_eq!(None, comp.into_inner());
}

#[test]
fn try_get_waits_out_its_duration() {
    let comp: Completable<u32> = Completable::default();
    let start = Instant::now();
    assert_eq!(None, comp.try_get(SHORT_WAIT));
    assert!(start.elapsed() >= SHORT_WAIT);
    assert!(comp.complete(7));
    assert_eq!(Some(&7), comp.try_get(Duration::ZERO));
    assert_eq!(Some(&7), comp.try_get(Duration::MAX));
}

#[test]
fn first_of_many_offers_wins() {
    let comp = Completable::default();
    let mut taken = 0;
    for value in [7, 9, 11, 7] {
        if comp.complete(value) {
            taken += 1;
        }
    }
    assert_eq!(1, taken);
    assert_eq!(7, *comp.get());
    assert_eq!(Some(&7), comp.peek());
}

#[test]
fn value_outlives_later_offers() {
    let comp = Completable::default();
    assert!(comp.complete(String::from("first")));
    let seen = comp.get();
    assert!(!comp.complete(String::from("second")));
    assert_eq!("first", seen);
}

#[test]
fn completion_is_claimed_once() {
    let mut c = Completion::empty();
    assert!(!c.is_filled());
    assert!(c.pending());
    assert!(c.claim());
    assert!(c.is_filled());
    assert!(!c.pending());
    assert!(!c.claim());
    assert!(c.is_filled());

    let mut c = Completion::full();
    assert!(c.is_filled());
    assert!(!c.claim());
}

#[test]
fn waiter_sees_the_first_value_only() {
    let completable = Completable::default();
    assert!(completable.complete(7));
    assert_eq!(7, *completable.get());
    assert!(!completable.complete(9));
    assert_eq!(Some(&7), completable.peek());
}

fn sync<T: Sync>(_: T) {}

#[test]
fn completable_is_sync() {
    let comp = Completable::new(());
    sync(comp.peek());
    sync(comp.get());
    sync(comp);
}
