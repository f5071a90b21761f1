use fragile::{Entry, Registry};
use std::rc::Rc;

#[test]
fn registry_two_entries_get_distinct_keys() {
    let mut reg = Registry::new();
    let k1 = reg.insert(Entry::new(10u32)).ok().unwrap();
    let k2 = reg.insert(Entry::new(20u32)).ok().unwrap();
    assert_ne!(k1, k2);
    assert_eq!(reg.len(), 2);
    assert_eq!(reg.with(k1, |e| *e.value()), 10);
    assert_eq!(reg.with(k2, |e| *e.value()), 20);
    assert_eq!(reg.try_remove(k1).map(|e| e.into_value()), Some(10));
    assert!(!reg.contains(k1));
    assert!(reg.try_remove(k1).is_none());
    assert_eq!(reg.try_remove(k2).map(|e| e.into_value()), Some(20));
    assert_eq!(reg.len(), 0);
}

#[test]
fn registry_keys_are_not_reused_after_removal() {
    let mut reg = Registry::new();
    let k1 = reg.insert(Entry::new("a")).ok().unwrap();
    assert!(reg.try_remove(k1).is_some());
    let k2 = reg.insert(Entry::new("b")).ok().unwrap();
    assert_ne!(k1, k2);
}

#[test]
fn registry_teardown_destroys_every_entry() {
    let marker = Rc::new(());
    let mut reg = Registry::new();
    for _ in 0..3 {
        reg.insert(Entry::new(marker.clone())).ok().unwrap();
    }
    assert_eq!(Rc::strong_count(&marker), 4);
    assert_eq!(reg.teardown(), 3);
    assert_eq!(reg.len(), 0);
    assert_eq!(Rc::strong_count(&marker), 1);
}

#[test]
fn registry_drop_destroys_remaining_entries() {
    let marker = Rc::new(());
    {
        let mut reg = Registry::new();
        reg.insert(Entry::new(marker.clone())).ok().unwrap();
        reg.insert(Entry::new(marker.clone())).ok().unwrap();
        assert_eq!(Rc::strong_count(&marker), 3);
    }
    assert_eq!(Rc::strong_count(&marker), 1);
}

#[test]
fn entry_round_trip() {
    let e = Entry::new(String::from("x"));
    assert_eq!(e.value(), "x");
    assert_eq!(e.into_value(), "x");
}
