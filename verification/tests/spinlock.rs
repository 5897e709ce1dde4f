use libmutex::spinlock::SpinLock;

#[test]
fn lock_drop_lock() {
    let sl = SpinLock::new(1);
    {
        let mut guard = sl.lock();
        *guard += 1;
    }
    let guard = sl.lock();
    assert_eq!(2, *guard);
}

#[test]
fn try_lock_fails_while_locked() {
    let sl = SpinLock::new("x");
    let a = sl.lock();
    assert!(sl.try_lock().is_none());
    assert!(sl.try_lock().is_none());
    drop(a);
    let b = sl.try_lock();
    assert!(b.is_some());
    assert_eq!("x", *b.unwrap());
}

#[test]
fn try_lock_guard_unlocks_when_dropped() {
    let sl = SpinLock::new(0u8);
    for i in 0..50u8 {
        let mut guard = sl.try_lock().unwrap();
        assert_eq!(i, *guard);
        *guard += 1;
    }
    assert_eq!(50, sl.into_inner());
}

#[test]
fn unlock_clears_the_flag() {
    let sl = SpinLock::new(());
    sl.unlock();
    let guard = sl.try_lock();
    assert!(guard.is_some());
    drop(guard);
    assert!(sl.try_lock().is_some());
}

#[test]
fn spin_get_mut_and_into_inner_need_no_guard() {
    let mut sl = SpinLock::new(String::from("a"));
    sl.get_mut().push('b');
    {
        let mut guard = sl.lock();
        guard.push('c');
    }
    assert_eq!("abc", sl.into_inner());
}
