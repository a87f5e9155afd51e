use java_bindings::handle::{HandleError, Registry};

#[test]
fn create_then_cast_yields_object() {
    let mut r = Registry::new();
    let h = r.create(String::from("a"));
    assert!(h > 0);
    assert_eq!(r.cast(h), Ok(&String::from("a")));
    assert!(r.contains(h));
}

#[test]
fn destroyed_handle_is_detected() {
    let mut r = Registry::new();
    let h = r.create(7u8);
    assert_eq!(r.destroy(h), Ok(7));
    assert_eq!(r.cast(h), Err(HandleError::AlreadyDestroyed));
    assert_eq!(r.destroy(h), Err(HandleError::AlreadyDestroyed));
    assert!(!r.contains(h));
}

#[test]
fn unknown_handles_are_detected() {
    let mut r: Registry<u8> = Registry::new();
    assert_eq!(r.cast(0), Err(HandleError::UnknownHandle));
    assert_eq!(r.cast(-3), Err(HandleError::UnknownHandle));
    assert_eq!(r.destroy(1), Err(HandleError::UnknownHandle));
    let h = r.create(1);
    assert_eq!(r.cast(h + 1), Err(HandleError::UnknownHandle));
}

#[test]
fn handles_are_never_reused() {
    let mut r = Registry::new();
    let a = r.create(1u8);
    assert_eq!(r.destroy(a), Ok(1));
    let b = r.create(2u8);
    assert_ne!(a, b);
    assert_eq!(r.cast(b), Ok(&2));
    assert_eq!(r.cast(a), Err(HandleError::AlreadyDestroyed));
}

#[test]
fn three_creates_three_destroys_leave_nothing_live() {
    let mut r = Registry::new();
    let a = r.create("view one");
    let b = r.create("view two");
    let c = r.create("view three");
    assert_eq!(r.known_handles(), vec![a, b, c]);
    assert_eq!(r.destroy(b), Ok("view two"));
    assert_eq!(r.known_handles(), vec![a, c]);
    assert_eq!(r.destroy(c), Ok("view three"));
    assert_eq!(r.destroy(a), Ok("view one"));
    assert!(r.known_handles().is_empty());
}

#[test]
fn empty_registry_has_no_live_handles() {
    let r: Registry<u8> = Registry::new();
    assert!(r.known_handles().is_empty());
    assert!(r.can_create());
}
