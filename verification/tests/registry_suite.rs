//! Direct tests of the session registry: creation, lookup, mutation, and
//! destructive teardown, with identifier collisions and the capacity
//! bound rejected rather than silently corrected.

use neomind_extensions::errors::ExtensionError;
use neomind_extensions::registry::{SessionEntry, SessionRegistry};

fn entry(id: &str, accum: u32) -> SessionEntry<u32> {
    SessionEntry { id: id.to_string(), created_at: 1, last_activity: 1, accum }
}

#[test]
fn test_registry_insert_get_remove() {
    let mut reg: SessionRegistry<u32> = SessionRegistry::new(4);
    assert_eq!(reg.len(), 0);
    assert_eq!(reg.max_sessions(), 4);
    reg.insert(entry("a", 10)).unwrap();
    reg.insert(entry("b", 20)).unwrap();
    assert_eq!(reg.len(), 2);
    assert_eq!(reg.get("a").unwrap().accum, 10);
    assert_eq!(reg.get("b").unwrap().accum, 20);
    assert!(reg.get("c").is_none());
    let removed = reg.remove("a").unwrap();
    assert_eq!(removed.accum, 10);
    assert!(reg.get("a").is_none());
    assert_eq!(reg.len(), 1);
    assert!(reg.remove("a").is_none());
}

#[test]
fn test_registry_collision_keeps_existing_record() {
    let mut reg: SessionRegistry<u32> = SessionRegistry::new(4);
    reg.insert(entry("dup", 1)).unwrap();
    match reg.insert(entry("dup", 2)) {
        Err(ExtensionError::SessionAlreadyExists(id)) => assert_eq!(id, "dup"),
        _ => panic!("expected SessionAlreadyExists"),
    }
    // the registered record is untouched by the rejected insert
    assert_eq!(reg.get("dup").unwrap().accum, 1);
}

#[test]
fn test_registry_capacity() {
    let mut reg: SessionRegistry<u32> = SessionRegistry::new(1);
    reg.insert(entry("one", 1)).unwrap();
    match reg.insert(entry("two", 2)) {
        Err(ExtensionError::CapacityExceeded(_)) => {}
        _ => panic!("expected CapacityExceeded"),
    }
    reg.remove("one").unwrap();
    assert!(reg.insert(entry("two", 2)).is_ok());
}

#[test]
fn test_registry_set_accum() {
    let mut reg: SessionRegistry<u32> = SessionRegistry::new(4);
    reg.insert(entry("s", 5)).unwrap();
    reg.insert(entry("t", 6)).unwrap();
    assert!(reg.set_accum("s", 50, 99));
    let e = reg.get("s").unwrap();
    assert_eq!(e.accum, 50);
    assert_eq!(e.last_activity, 99);
    assert_eq!(e.created_at, 1);
    // the other record is untouched, and a missing id changes nothing
    assert_eq!(reg.get("t").unwrap().accum, 6);
    assert!(!reg.set_accum("missing", 7, 7));
}
