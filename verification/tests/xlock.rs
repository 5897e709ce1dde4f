use libmutex::xlock::ArrivalOrdered;
use libmutex::xlock::ReadBiased;
use libmutex::xlock::Spec;
use libmutex::xlock::UpgradeOutcome;
use libmutex::xlock::WriteBiased;
use libmutex::xlock::XLock;
use std::time::Duration;
use std::time::Instant;

fn write_is_seen_by_the_next_reader<M: Spec>() {
    let lock = XLock::<_, M>::new(0);
    {
        let mut guard = lock.write();
        assert!(guard.is_counted());
        *guard = 42;
    }
    let guard = lock.read();
    assert!(guard.is_counted());
    assert_eq!(42, *guard);
}

#[test]
fn read_biased_write_is_seen_by_the_next_reader() {
    write_is_seen_by_the_next_reader::<ReadBiased>();
}

#[test]
fn write_biased_write_is_seen_by_the_next_reader() {
    write_is_seen_by_the_next_reader::<WriteBiased>();
}

#[test]
fn arrival_ordered_write_is_seen_by_the_next_reader() {
    write_is_seen_by_the_next_reader::<ArrivalOrdered>();
}

fn writer_gets_in_once_the_reader_has_gone<M: Spec>() {
    let lock = XLock::<_, M>::new(0);
    let reader = lock.read();
    assert!(lock.try_write(Duration::ZERO).is_none());
    drop(reader);
    assert!(lock.try_write(Duration::ZERO).is_some());
}

#[test]
fn read_biased_writer_gets_in_once_the_reader_has_gone() {
    writer_gets_in_once_the_reader_has_gone::<ReadBiased>();
}

#[test]
fn write_biased_writer_gets_in_once_the_reader_has_gone() {
    writer_gets_in_once_the_reader_has_gone::<WriteBiased>();
}

#[test]
fn arrival_ordered_writer_gets_in_once_the_reader_has_gone() {
    writer_gets_in_once_the_reader_has_gone::<ArrivalOrdered>();
}

fn reader_is_refused_at_once_while_a_writer_holds<M: Spec>() {
    let lock = XLock::<_, M>::new(7);
    let writer = lock.write();
    let start = Instant::now();
    assert!(lock.try_read(Duration::ZERO).is_none());
    assert!(lock.try_write(Duration::ZERO).is_none());
    assert!(start.elapsed() < Duration::from_secs(5));
    drop(writer);
    let a = lock.try_read(Duration::ZERO).unwrap();
    let b = lock.try_read(Duration::ZERO).unwrap();
    assert_eq!(7, *a);
    assert_eq!(7, *b);
}

#[test]
fn read_biased_reader_is_refused_at_once_while_a_writer_holds() {
    reader_is_refused_at_once_while_a_writer_holds::<ReadBiased>();
}

#[test]
fn write_biased_reader_is_refused_at_once_while_a_writer_holds() {
    reader_is_refused_at_once_while_a_writer_holds::<WriteBiased>();
}

#[test]
fn arrival_ordered_reader_is_refused_at_once_while_a_writer_holds() {
    reader_is_refused_at_once_while_a_writer_holds::<ArrivalOrdered>();
}

fn timed_attempt_waits_out_its_duration<M: Spec>() {
    let lock = XLock::<_, M>::new(0);
    let reader = lock.read();
    let wait = Duration::from_millis(20);
    let start = Instant::now();
    assert!(lock.try_write(wait).is_none());
    assert!(start.elapsed() >= wait);
    drop(reader);
    let writer = lock.write();
    let start = Instant::now();
    assert!(lock.try_read(wait).is_none());
    assert!(start.elapsed() >= wait);
    drop(writer);
    assert!(lock.try_read(wait).is_some());
}

#[test]
fn read_biased_timed_attempt_waits_out_its_duration() {
    timed_attempt_waits_out_its_duration::<ReadBiased>();
}

#[test]
fn write_biased_timed_attempt_waits_out_its_duration() {
    timed_attempt_waits_out_its_duration::<WriteBiased>();
}

#[test]
fn arrival_ordered_timed_attempt_waits_out_its_duration() {
    timed_attempt_waits_out_its_duration::<ArrivalOrdered>();
}

fn upgrade_is_refused_while_another_reader_holds<M: Spec>() {
    let lock = XLock::<_, M>::new(5);
    let first = lock.read();
    let second = lock.read();
    let outcome = first.try_upgrade(Duration::ZERO);
    assert!(outcome.is_unchanged());
    assert!(!outcome.is_upgraded());
    let first = outcome.unchanged().unwrap();
    // The guard that came back still reads, and still keeps writers out.
    assert!(first.is_counted());
    assert_eq!(5, *first);
    assert!(lock.try_write(Duration::ZERO).is_none());
    drop(second);
    assert!(lock.try_write(Duration::ZERO).is_none());
    let outcome = first.try_upgrade(Duration::ZERO);
    assert!(outcome.is_upgraded());
    let writer = outcome.upgraded().unwrap();
    assert!(writer.is_counted());
    assert!(lock.try_read(Duration::ZERO).is_none());
    drop(writer);
    assert!(lock.try_write(Duration::ZERO).is_some());
}

#[test]
fn read_biased_upgrade_is_refused_while_another_reader_holds() {
    upgrade_is_refused_while_another_reader_holds::<ReadBiased>();
}

#[test]
fn write_biased_upgrade_is_refused_while_another_reader_holds() {
    upgrade_is_refused_while_another_reader_holds::<WriteBiased>();
}

#[test]
fn arrival_ordered_upgrade_is_refused_while_another_reader_holds() {
    upgrade_is_refused_while_another_reader_holds::<ArrivalOrdered>();
}

fn downgrade_keeps_what_was_written<M: Spec>() {
    let lock = XLock::<_, M>::new(String::from("old"));
    let mut writer = lock.write();
    writer.push_str(" and new");
    let reader = writer.downgrade();
    assert!(reader.is_counted());
    assert_eq!("old and new", *reader);
    // Other readers join the downgraded guard and see the same; writers wait.
    let other = lock.try_read(Duration::ZERO).unwrap();
    assert_eq!("old and new", *other);
    assert!(lock.try_write(Duration::ZERO).is_none());
    drop(reader);
    drop(other);
    assert_eq!("old and new", *lock.read());
    assert!(lock.try_write(Duration::ZERO).is_some());
}

#[test]
fn read_biased_downgrade_keeps_what_was_written() {
    downgrade_keeps_what_was_written::<ReadBiased>();
}

#[test]
fn write_biased_downgrade_keeps_what_was_written() {
    downgrade_keeps_what_was_written::<WriteBiased>();
}

#[test]
fn arrival_ordered_downgrade_keeps_what_was_written() {
    downgrade_keeps_what_was_written::<ArrivalOrdered>();
}

fn upgrade_write_downgrade_round_trip<M: Spec>() {
    let lock = XLock::<_, M>::new(1u64);
    let reader = lock.read();
    assert_eq!(1, *reader);
    let mut writer = match reader.try_upgrade(Duration::ZERO) {
        UpgradeOutcome::Upgraded(writer) => writer,
        UpgradeOutcome::Unchanged(_) => panic!("a sole reader is upgraded"),
    };
    assert_eq!(1, *writer);
    *writer += 41;
    let reader = writer.downgrade();
    assert_eq!(42, *reader);
    let mut writer = reader.upgrade();
    assert!(writer.is_counted());
    *writer *= 2;
    drop(writer);
    assert_eq!(84, *lock.read());
    assert_eq!(84, lock.into_inner());
}

#[test]
fn read_biased_upgrade_write_downgrade_round_trip() {
    upgrade_write_downgrade_round_trip::<ReadBiased>();
}

#[test]
fn write_biased_upgrade_write_downgrade_round_trip() {
    upgrade_write_downgrade_round_trip::<WriteBiased>();
}

#[test]
fn arrival_ordered_upgrade_write_downgrade_round_trip() {
    upgrade_write_downgrade_round_trip::<ArrivalOrdered>();
}

fn every_guard_is_released_once<M: Spec>() {
    let lock = XLock::<_, M>::new(0);
    for round in 0..100 {
        let a = lock.read();
        let b = lock.read();
        let c = lock.read();
        drop(b);
        drop(a);
        let mut writer = c.upgrade();
        *writer = round;
        let reader = writer.downgrade();
        assert_eq!(round, *reader);
        drop(reader);
        // Had a place been kept or given up twice, this would fail or hang.
        let writer = lock.try_write(Duration::ZERO);
        assert!(writer.is_some());
    }
    assert!(lock.try_write(Duration::ZERO).is_some());
}

#[test]
fn read_biased_every_guard_is_released_once() {
    every_guard_is_released_once::<ReadBiased>();
}

#[test]
fn write_biased_every_guard_is_released_once() {
    every_guard_is_released_once::<WriteBiased>();
}

#[test]
fn arrival_ordered_every_guard_is_released_once() {
    every_guard_is_released_once::<ArrivalOrdered>();
}

fn get_mut_and_into_inner_need_no_guard<M: Spec>() {
    let mut lock = XLock::<_, M>::new(vec![1, 2]);
    lock.get_mut().push(3);
    {
        let mut guard = lock.write();
        guard.push(4);
    }
    assert_eq!(4, lock.read().len());
    assert_eq!(vec![1, 2, 3, 4], lock.into_inner());
}

#[test]
fn read_biased_get_mut_and_into_inner_need_no_guard() {
    get_mut_and_into_inner_need_no_guard::<ReadBiased>();
}

#[test]
fn write_biased_get_mut_and_into_inner_need_no_guard() {
    get_mut_and_into_inner_need_no_guard::<WriteBiased>();
}

#[test]
fn arrival_ordered_get_mut_and_into_inner_need_no_guard() {
    get_mut_and_into_inner_need_no_guard::<ArrivalOrdered>();
}

#[test]
fn outcome_map_keeps_the_side() {
    let up: UpgradeOutcome<u32, &str> = UpgradeOutcome::Upgraded(20);
    let mapped = up.map(|w| w + 1, |r| r.len());
    assert!(mapped.is_upgraded());
    assert_eq!(Some(21), mapped.upgraded());
    let same: UpgradeOutcome<u32, &str> = UpgradeOutcome::Unchanged("abc");
    let mapped = same.map(|w| w + 1, |r| r.len());
    assert!(mapped.is_unchanged());
    assert_eq!(Some(3), mapped.unchanged());
}

#[test]
fn outcome_accessors() {
    let up: UpgradeOutcome<u32, &str> = UpgradeOutcome::Upgraded(20);
    assert!(up.is_upgraded());
    assert!(!up.is_unchanged());
    assert_eq!(None, up.unchanged());
    let same: UpgradeOutcome<u32, &str> = UpgradeOutcome::Unchanged("abc");
    assert!(same.is_unchanged());
    assert!(!same.is_upgraded());
    assert_eq!(None, same.upgraded());
}

#[test]
fn read_biased_reader_passes_a_writer_that_gave_up_waiting() {
    let lock = XLock::<_, ReadBiased>::new(0);
    let a = lock.read();
    // B waits to write and gives up; C reads while A still holds.
    assert!(lock.try_write(Duration::from_millis(5)).is_none());
    let c = lock.read();
    assert_eq!(0, *c);
    drop(a);
    assert!(lock.try_write(Duration::ZERO).is_none());
    drop(c);
    let mut b = lock.try_write(Duration::ZERO).unwrap();
    *b = 1;
    drop(b);
    assert_eq!(1, *lock.read());
}

#[test]
fn write_biased_reader_goes_on_once_the_writer_gave_up() {
    let lock = XLock::<_, WriteBiased>::new(0);
    let a = lock.read();
    assert!(lock.try_write(Duration::from_millis(5)).is_none());
    // The writer is off the waiting count: a reader is admitted at once.
    let c = lock.try_read(Duration::ZERO);
    assert!(c.is_some());
    drop(a);
    drop(c);
    let b = lock.try_write(Duration::ZERO);
    assert!(b.is_some());
    assert!(lock.try_read(Duration::ZERO).is_none());
    drop(b);
    assert!(lock.try_read(Duration::ZERO).is_some());
}

#[test]
fn arrival_ordered_queue_is_empty_after_timeouts() {
    let lock = XLock::<_, ArrivalOrdered>::new(0);
    let writer = lock.write();
    for _ in 0..10 {
        assert!(lock.try_read(Duration::ZERO).is_none());
        assert!(lock.try_write(Duration::from_millis(1)).is_none());
    }
    drop(writer);
    // No ticket was left behind: the next arrival is at the head.
    assert!(lock.try_write(Duration::ZERO).is_some());
    assert!(lock.try_read(Duration::ZERO).is_some());
}

#[test]
fn place_is_free_after_read_upgrade_downgrade_drop() {
    let lock = XLock::<u64, ReadBiased>::new(0);
    let mut g =
        lock.try_read(Duration::ZERO).unwrap().try_upgrade(Duration::ZERO).upgraded().unwrap();
    *g = 42;
    let r = g.downgrade();
    drop(r);
    let w = lock.try_write(Duration::ZERO).unwrap();
    assert_eq!(42, *w);
}

#[test]
fn reader_joins_a_downgraded_writer_at_once() {
    let lock = XLock::<u64, ReadBiased>::new(0);
    let mut g = lock.write();
    *g = 69;
    let r = g.downgrade();
    let r2 = lock.try_read(Duration::ZERO).unwrap();
    assert_eq!(69, *r2);
    assert_eq!(69, *r);
}

#[test]
fn refused_upgrade_leaves_both_readers_in_place() {
    let lock = XLock::<u64, ReadBiased>::new(5);
    let r1 = lock.try_read(Duration::ZERO).unwrap();
    let r2 = lock.try_read(Duration::ZERO).unwrap();
    let outcome = r1.try_upgrade(Duration::ZERO);
    assert!(outcome.is_unchanged());
    let g = outcome.unchanged().unwrap();
    assert_eq!(5, *g);
    assert!(lock.try_write(Duration::ZERO).is_none());
    assert!(lock.try_read(Duration::ZERO).is_some());
    assert_eq!(5, *r2);
}

#[test]
fn sole_reader_upgrades_without_waiting() {
    let lock = XLock::<u64, ReadBiased>::new(3);
    let r = lock.read();
    let mut w = r.upgrade();
    assert!(w.is_counted());
    assert_eq!(3, *w);
    assert!(lock.try_read(Duration::ZERO).is_none());
    *w = 4;
    drop(w);
    assert_eq!(4, *lock.read());
}

#[test]
fn outcome_dropped_as_none_frees_its_place() {
    let lock = XLock::<u64, ReadBiased>::new(0);
    let r1 = lock.read();
    let r2 = lock.read();
    let o = r1.try_upgrade(Duration::ZERO);
    assert!(o.upgraded().is_none());
    drop(r2);
    assert!(lock.try_write(Duration::ZERO).is_some());

    let o = lock.read().try_upgrade(Duration::ZERO);
    assert!(o.is_upgraded());
    assert!(o.unchanged().is_none());
    assert!(lock.try_write(Duration::ZERO).is_some());
}
