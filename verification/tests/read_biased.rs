use libmutex::xlock::moderator::Wake;
use libmutex::xlock::read_biased::ReadBiased;
use libmutex::xlock::read_biased::ReadBiasedState;
use libmutex::xlock::Spec;
use std::time::Duration;

#[test]
fn read_biased_new_state_is_idle() {
    let s = ReadBiasedState::new();
    assert_eq!(0, s.readers());
    assert!(!s.writer());
    assert!(!s.has_reader());
    assert!(!s.read_blocked());
    assert!(!s.write_blocked());
    assert!(s.upgrade_blocked());
}

#[test]
fn readers_join_readers() {
    let mut s = ReadBiasedState::new();
    assert!(s.admit_read());
    assert!(s.admit_read());
    assert!(s.admit_read());
    assert_eq!(3, s.readers());
    assert!(!s.writer());
}

#[test]
fn reader_waits_for_the_writer_only() {
    let mut s = ReadBiasedState::new();
    assert!(s.admit_write());
    assert!(s.writer());
    assert!(s.read_blocked());
    assert!(!s.admit_read());
    assert_eq!(0, s.readers());
    assert!(s.writer());
}

#[test]
fn writer_waits_for_readers_and_for_the_writer() {
    let mut s = ReadBiasedState::new();
    assert!(s.admit_read());
    assert!(s.write_blocked());
    assert!(!s.admit_write());
    assert_eq!(1, s.readers());
    assert!(!s.writer());

    let mut s = ReadBiasedState::new();
    assert!(s.admit_write());
    assert!(s.write_blocked());
    assert!(!s.admit_write());
    assert!(s.writer());
}

#[test]
fn release_read_says_whom_to_wake() {
    let mut s = ReadBiasedState::new();
    assert!(s.admit_read());
    assert!(s.admit_read());
    assert!(s.admit_read());
    assert_eq!(Wake::Nobody, s.release_read());
    assert_eq!(2, s.readers());
    assert_eq!(Wake::All, s.release_read());
    assert_eq!(1, s.readers());
    assert_eq!(Wake::One, s.release_read());
    assert_eq!(0, s.readers());
}

#[test]
fn release_write_wakes_one() {
    let mut s = ReadBiasedState::new();
    assert!(s.admit_write());
    assert_eq!(Wake::One, s.release_write());
    assert!(!s.writer());
    assert_eq!(0, s.readers());
}

#[test]
fn read_biased_downgrade_makes_the_writer_the_only_reader() {
    let mut s = ReadBiasedState::new();
    assert!(s.admit_write());
    assert_eq!(Wake::All, s.downgrade());
    assert!(!s.writer());
    assert_eq!(1, s.readers());
    assert!(!s.read_blocked());
    assert!(s.write_blocked());
}

#[test]
fn upgrade_needs_a_sole_reader() {
    let mut s = ReadBiasedState::new();
    assert!(!s.admit_upgrade());
    assert!(s.admit_read());
    assert!(s.admit_read());
    assert!(s.upgrade_blocked());
    assert!(!s.admit_upgrade());
    assert_eq!(2, s.readers());
    assert_eq!(Wake::All, s.release_read());
    assert!(!s.upgrade_blocked());
    assert!(s.admit_upgrade());
    assert_eq!(0, s.readers());
    assert!(s.writer());
    assert!(!s.admit_upgrade());
}

#[test]
fn readers_keep_a_waiting_writer_out() {
    // A reads; B wants to write and has to wait; C reads all the same.
    let mut s = ReadBiasedState::new();
    assert!(s.admit_read());
    assert!(!s.admit_write());
    assert!(s.admit_read());
    assert_eq!(2, s.readers());
    // After A and C have gone, B gets the lock.
    assert_eq!(Wake::All, s.release_read());
    assert!(!s.admit_write());
    assert_eq!(Wake::One, s.release_read());
    assert!(s.admit_write());
}

#[test]
fn read_biased_sync_counts_through_the_mutex() {
    let sync = ReadBiased::new();
    assert!(ReadBiased::try_read(&sync, Duration::ZERO));
    assert!(ReadBiased::try_read(&sync, Duration::ZERO));
    assert!(!ReadBiased::try_write(&sync, Duration::ZERO));
    assert!(!ReadBiased::try_upgrade(&sync, Duration::ZERO));
    ReadBiased::read_unlock(&sync);
    assert!(ReadBiased::try_upgrade(&sync, Duration::ZERO));
    assert!(!ReadBiased::try_read(&sync, Duration::from_millis(5)));
    assert!(ReadBiased::downgrade(&sync));
    assert!(ReadBiased::try_read(&sync, Duration::ZERO));
    ReadBiased::read_unlock(&sync);
    ReadBiased::read_unlock(&sync);
    assert!(ReadBiased::try_write(&sync, Duration::MAX));
    ReadBiased::write_unlock(&sync);
    assert!(ReadBiased::try_write(&sync, Duration::ZERO));
}

#[test]
fn unlock_without_a_holder_changes_nothing() {
    let sync = ReadBiased::new();
    ReadBiased::read_unlock(&sync);
    ReadBiased::write_unlock(&sync);
    assert!(!ReadBiased::downgrade(&sync));
    assert!(ReadBiased::try_write(&sync, Duration::ZERO));
    ReadBiased::read_unlock(&sync);
    assert!(!ReadBiased::try_read(&sync, Duration::ZERO));
}
