use fragile::{
    check_access, fragile_drop_action, sticky_drop_action, FragileDrop, InvalidThreadAccess,
    Fragile, Registry, Sticky, StickyDrop,
};

#[test]
fn access_is_granted_to_the_home_thread_only() {
    assert_eq!(check_access(3, 3), Ok(()));
    assert_eq!(check_access(3, 4), Err(InvalidThreadAccess));
}

#[test]
fn fragile_drop_decisions() {
    assert_eq!(fragile_drop_action(true, 1, 1), FragileDrop::Cleanup);
    assert_eq!(fragile_drop_action(true, 1, 2), FragileDrop::WrongThread);
    assert_eq!(fragile_drop_action(false, 1, 2), FragileDrop::Nothing);
    assert_eq!(fragile_drop_action(false, 1, 1), FragileDrop::Nothing);
}

#[test]
fn sticky_drop_decisions() {
    assert_eq!(sticky_drop_action(true, 1, 1), StickyDrop::Cleanup);
    assert_eq!(sticky_drop_action(true, 1, 2), StickyDrop::DeferredLeakOnForeignDrop);
    assert_eq!(sticky_drop_action(false, 1, 2), StickyDrop::Nothing);
    assert_eq!(sticky_drop_action(false, 1, 1), StickyDrop::Nothing);
}

#[test]
fn identity_is_stable_on_one_thread() {
    let mut reg = Registry::new();
    let a = Fragile::new(1u8);
    let b = match Sticky::new(2u8, &mut reg) {
        Ok(b) => b,
        Err(_) => panic!("a fresh registry has keys to give"),
    };
    assert_eq!(a.home_thread(), b.home_thread());
    assert!(a.is_valid());
    assert!(b.is_valid());
}
