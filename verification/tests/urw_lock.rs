use libmutex::sync::remedy;
use libmutex::urw_lock::pack;
use libmutex::urw_lock::unpack;
use libmutex::urw_lock::UrwLock;

#[test]
fn urw_write_then_read() {
    let lock = UrwLock::new(0);
    {
        let mut guard = lock.write().unwrap();
        *guard = 42;
    }
    let a = lock.read().unwrap();
    let b = lock.read().unwrap();
    assert_eq!(42, *a);
    assert_eq!(42, *b);
}

#[test]
fn urw_downgrade_keeps_what_was_written() {
    let lock = UrwLock::new(vec![1]);
    let mut writer = lock.write().unwrap();
    writer.push(2);
    let reader = writer.downgrade();
    assert_eq!(vec![1, 2], *reader);
    let other = lock.read().unwrap();
    assert_eq!(vec![1, 2], *other);
    drop(reader);
    drop(other);
    let mut writer = lock.write().unwrap();
    writer.push(3);
    assert_eq!(3, writer.len());
}

#[test]
fn urw_guards_are_released_when_dropped() {
    let lock = UrwLock::new(0u32);
    for round in 0..50 {
        {
            let a = lock.read().unwrap();
            let b = lock.read().unwrap();
            assert_eq!(round, *a + *b - round);
        }
        let mut writer = lock.write().unwrap();
        *writer += 1;
    }
    assert_eq!(50, *lock.read().unwrap());
}

#[test]
fn pack_wraps_poisoned_data_in_an_error() {
    assert_eq!(Some(5), pack(5, false).ok());
    let poisoned = pack(5, true);
    assert!(poisoned.is_err());
    assert_eq!(5, poisoned.unwrap_err().into_inner());
}

#[test]
fn unpack_takes_the_answer_apart() {
    assert_eq!((5, false), unpack(Ok(5)));
    assert_eq!((6, true), unpack(pack(6, true)));
    assert_eq!((7, false), unpack(pack(7, false)));
}

#[test]
fn remedy_takes_the_data_out_either_way() {
    assert_eq!(5, remedy(Ok(5)));
    assert_eq!(6, remedy(pack(6, true)));
    assert_eq!("x", remedy(pack("x", false)));
}

#[test]
fn urw_downgrade_leaves_one_reader_that_is_released() {
    let l = UrwLock::new(0);
    let mut w = l.write().unwrap();
    *w = 7;
    let r = w.downgrade();
    assert_eq!(7, *r);
    let second = l.read();
    assert!(second.is_ok());
    drop(second);
    drop(r);
    let w = l.write().unwrap();
    assert_eq!(7, *w);
}
