use java_bindings::boundary::{
    cast_schema, cast_view, native_create, native_free, native_get_state_hashes, register_view,
    unwrap_exc_or, unwrap_exc_or_default, BoundaryFailure, NativeObject, SchemaType, ViewRef,
};
use java_bindings::handle::{HandleError, Registry};

fn three_hashes(view: &u32) -> Vec<Vec<u8>> {
    vec![vec![*view as u8; 32], vec![1; 32], vec![2; 32]]
}

#[test]
fn state_hashes_for_snapshot_and_fork() {
    let mut objects = Registry::new();
    let snapshot = register_view(&mut objects, ViewRef::Snapshot(9u32)).unwrap();
    let fork = register_view(&mut objects, ViewRef::Fork(9u32)).unwrap();
    let s = native_create(&mut objects, snapshot);
    let f = native_create(&mut objects, fork);
    assert!(s.thrown.is_none() && f.thrown.is_none());
    assert_eq!(cast_schema(&objects, s.value), Ok(SchemaType::SnapshotSchema(snapshot)));
    assert_eq!(cast_schema(&objects, f.value), Ok(SchemaType::ForkSchema(fork)));
    let hs = native_get_state_hashes(&objects, s.value, three_hashes);
    let hf = native_get_state_hashes(&objects, f.value, three_hashes);
    assert!(hs.thrown.is_none() && hf.thrown.is_none());
    assert_eq!(hs.value.len(), 3);
    assert_eq!(hf.value.len(), 3);
    assert_eq!(hs.value, hf.value);
}

#[test]
fn handles_are_unique_across_kinds() {
    let mut objects = Registry::new();
    let v = register_view(&mut objects, ViewRef::Snapshot(1u32)).unwrap();
    let s = native_create(&mut objects, v).value;
    assert_ne!(v, s);
    assert_eq!(objects.known_handles(), vec![v, s]);
}

#[test]
fn schema_handle_is_not_a_view() {
    let mut objects = Registry::new();
    let v = register_view(&mut objects, ViewRef::Fork(1u32)).unwrap();
    let s = native_create(&mut objects, v).value;
    let c = native_create(&mut objects, s);
    assert_eq!(c.value, 0);
    assert_eq!(c.thrown, Some(BoundaryFailure::Misuse(HandleError::WrongType)));
    assert_eq!(objects.known_handles(), vec![v, s]);
    assert!(matches!(cast_view(&objects, s), Err(HandleError::WrongType)));
}

#[test]
fn view_handle_is_not_a_schema() {
    let mut objects = Registry::new();
    let v = register_view(&mut objects, ViewRef::Snapshot(1u32)).unwrap();
    assert_eq!(
        native_free(&mut objects, v),
        Some(BoundaryFailure::Misuse(HandleError::WrongType))
    );
    assert!(objects.contains(v));
    let h = native_get_state_hashes(&objects, v, three_hashes);
    assert!(h.value.is_empty());
    assert_eq!(h.thrown, Some(BoundaryFailure::Misuse(HandleError::WrongType)));
}

#[test]
fn failure_yields_safe_defaults() {
    let mut objects: Registry<NativeObject<u32>> = Registry::new();
    let c = native_create(&mut objects, 42);
    assert_eq!(c.value, 0);
    assert_eq!(c.thrown, Some(BoundaryFailure::Misuse(HandleError::UnknownHandle)));
    let h = native_get_state_hashes(&objects, 42, three_hashes);
    assert!(h.value.is_empty());
    assert_eq!(h.thrown, Some(BoundaryFailure::Misuse(HandleError::UnknownHandle)));
    let v = register_view(&mut objects, ViewRef::Snapshot(1)).unwrap();
    let s = native_create(&mut objects, v).value;
    assert!(objects.destroy(v).is_ok());
    let h = native_get_state_hashes(&objects, s, three_hashes);
    assert!(h.value.is_empty());
    assert_eq!(h.thrown, Some(BoundaryFailure::Misuse(HandleError::AlreadyDestroyed)));
}

#[test]
fn free_detects_double_free() {
    let mut objects = Registry::new();
    let v = register_view(&mut objects, ViewRef::Fork(3u32)).unwrap();
    let s = native_create(&mut objects, v).value;
    assert_eq!(native_free(&mut objects, s), None);
    assert_eq!(
        native_free(&mut objects, s),
        Some(BoundaryFailure::Misuse(HandleError::AlreadyDestroyed))
    );
    let h = native_get_state_hashes(&objects, s, three_hashes);
    assert!(h.value.is_empty());
}

#[test]
fn three_views_and_schemas_leave_nothing_live() {
    let mut objects = Registry::new();
    let v1 = register_view(&mut objects, ViewRef::Snapshot(1u32)).unwrap();
    let v2 = register_view(&mut objects, ViewRef::Fork(2u32)).unwrap();
    let s1 = native_create(&mut objects, v1).value;
    let v3 = register_view(&mut objects, ViewRef::Snapshot(3u32)).unwrap();
    let s2 = native_create(&mut objects, v2).value;
    assert_eq!(native_free(&mut objects, s1), None);
    let s3 = native_create(&mut objects, v3).value;
    assert_eq!(native_free(&mut objects, s3), None);
    assert_eq!(native_free(&mut objects, s2), None);
    assert!(objects.destroy(v2).is_ok());
    assert!(objects.destroy(v1).is_ok());
    assert!(objects.destroy(v3).is_ok());
    assert!(objects.known_handles().is_empty());
}

#[test]
fn unwrap_exc_or_substitutes_default() {
    let ok = unwrap_exc_or(Ok(5u8), 0);
    assert_eq!(ok.value, 5);
    assert!(ok.thrown.is_none());
    let failed = unwrap_exc_or(Err(BoundaryFailure::Exhausted), 11u8);
    assert_eq!(failed.value, 11);
    assert_eq!(failed.thrown, Some(BoundaryFailure::Exhausted));
    let d = unwrap_exc_or_default(Err(BoundaryFailure::Exhausted));
    assert_eq!(d.value, 0);
}
