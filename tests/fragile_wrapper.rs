use fragile::{Fragile, FragileDrop, InvalidThreadAccess};
use std::sync::atomic::{AtomicBool, Ordering};
use std::sync::Arc;

struct Flagged(Arc<AtomicBool>);

impl Drop for Flagged {
    fn drop(&mut self) {
        self.0.store(true, Ordering::SeqCst);
    }
}

#[test]
fn fragile_test_mut() {
    let mut val = Fragile::new(true);
    *val.try_get_mut().unwrap() = false;
    assert_eq!(val.try_get(), Ok(&false));
    assert_eq!(*val.try_get().unwrap(), false);
}

#[test]
fn fragile_same_thread_access() {
    let val = Fragile::new(41u32);
    assert!(val.is_valid());
    assert_eq!(val.try_get(), Ok(&41));
}

#[test]
fn fragile_try_into_inner_on_home_thread() {
    let val = Fragile::new(String::from("payload"));
    match val.try_into_inner() {
        Ok(s) => assert_eq!(s, "payload"),
        Err(_) => panic!("the home thread must be able to unwrap"),
    }
}

#[test]
fn fragile_drop_on_home_thread_runs_cleanup() {
    let was_called = Arc::new(AtomicBool::new(false));
    let val = Fragile::new(Flagged(was_called.clone()));
    drop(val);
    assert!(was_called.load(Ordering::SeqCst));
}

#[test]
fn fragile_unwrapped_value_is_not_destroyed_by_wrapper() {
    let was_called = Arc::new(AtomicBool::new(false));
    let val = Fragile::new(Flagged(was_called.clone()));
    let inner = match val.try_into_inner() {
        Ok(inner) => inner,
        Err(_) => panic!("the home thread must be able to unwrap"),
    };
    assert!(!was_called.load(Ordering::SeqCst));
    drop(inner);
    assert!(was_called.load(Ordering::SeqCst));
}

#[test]
fn fragile_error_message() {
    assert_eq!(
        InvalidThreadAccess.message(),
        "fragile value accessed from a foreign thread"
    );
}

#[test]
fn fragile_access_denied_to_foreign_identity() {
    let me = this_thread();
    let other = me.wrapping_add(1);
    let mut val = Fragile::new(5i64);
    assert!(val.is_same_thread_on(me));
    assert!(!val.is_same_thread_on(other));
    assert_eq!(val.try_get_on(other), Err(InvalidThreadAccess));
    assert!(val.try_get_mut_on(other).is_err());
    assert_eq!(val.try_get_on(me), Ok(&5));
    *val.try_get_mut_on(me).unwrap() = 6;
    assert_eq!(val.try_get(), Ok(&6));
}

#[test]
fn fragile_foreign_unwrap_hands_wrapper_back() {
    let other = this_thread().wrapping_add(1);
    let val = Fragile::new(vec![7u8, 8]);
    let back = match val.try_into_inner_on(other) {
        Ok(_) => panic!("a foreign thread must not unwrap"),
        Err(back) => back,
    };
    assert_eq!(back.try_get(), Ok(&vec![7u8, 8]));
    match back.try_into_inner() {
        Ok(v) => assert_eq!(v, vec![7u8, 8]),
        Err(_) => panic!("the home thread must be able to unwrap"),
    }
}

#[test]
fn fragile_foreign_release_withholds_cleanup() {
    let other = this_thread().wrapping_add(1);
    let was_called = Arc::new(AtomicBool::new(false));
    let mut val = Fragile::new(Flagged(was_called.clone()));
    let (action, withheld) = val.release_on(true, other);
    assert_eq!(action, FragileDrop::WrongThread);
    assert!(withheld.is_some());
    drop(val);
    assert!(!was_called.load(Ordering::SeqCst));
    std::mem::forget(withheld);
    assert!(!was_called.load(Ordering::SeqCst));
}

#[test]
fn fragile_home_release_runs_cleanup_now() {
    let me = this_thread();
    let was_called = Arc::new(AtomicBool::new(false));
    let mut val = Fragile::new(Flagged(was_called.clone()));
    let (action, withheld) = val.release_on(true, me);
    assert_eq!(action, FragileDrop::Cleanup);
    assert!(withheld.is_none());
    assert!(was_called.load(Ordering::SeqCst));
}

fn this_thread() -> usize {
    Fragile::new(()).home_thread()
}

#[test]
fn fragile_from_and_default() {
    let a: Fragile<u32> = Fragile::from(12);
    assert_eq!(a.try_get(), Ok(&12));
    let b: Fragile<String> = Fragile::default();
    assert_eq!(b.try_get().map(|s| s.as_str()), Ok(""));
}
