use opaque_pointer::error::PointerError;
use opaque_pointer::lender::{lend, lent_type_of, retrieve};
use opaque_pointer::registry::Registry;
use opaque_pointer::validation::{lent_pointer, not_null_pointer};
use std::any::TypeId;
use std::collections::TryReserveError;

/// A failure to reserve, as the standard collections report it.
fn reserve_failure() -> TryReserveError {
    let mut bytes: Vec<u8> = Vec::new();
    bytes.try_reserve(usize::MAX).unwrap_err()
}

#[test]
fn new_registry_holds_nothing() {
    let registry = Registry::new();
    assert!(!registry.contains_as(1, TypeId::of::<u8>()));
    assert_eq!(registry.type_of(1), None);
    assert_eq!(lent_type_of(&registry, 1), None);
}

#[test]
fn insert_then_lookup() {
    let mut registry = Registry::new();
    let byte = TypeId::of::<u8>();
    let word = TypeId::of::<u32>();
    assert_eq!(registry.insert(40, byte), Ok(()));
    assert!(registry.contains_as(40, byte));
    assert!(!registry.contains_as(40, word));
    assert!(!registry.contains_as(41, byte));
    assert_eq!(registry.type_of(40), Some(byte));
    assert_eq!(registry.type_of(41), None);
}

#[test]
fn insert_again_replaces_the_type() {
    let mut registry = Registry::new();
    let byte = TypeId::of::<u8>();
    let word = TypeId::of::<u32>();
    registry.insert(40, byte).unwrap();
    registry.insert(40, word).unwrap();
    assert_eq!(registry.type_of(40), Some(word));
    assert_eq!(registry.remove(40, word), Ok(()));
    assert_eq!(registry.remove(40, word), Err(PointerError::Invalid));
}

#[test]
fn remove_has_three_outcomes() {
    let mut registry = Registry::new();
    let byte = TypeId::of::<u8>();
    let word = TypeId::of::<u32>();
    registry.insert(40, byte).unwrap();

    assert_eq!(registry.remove(48, byte), Err(PointerError::Invalid));
    assert_eq!(registry.remove(40, word), Err(PointerError::InvalidType));
    assert!(registry.contains_as(40, byte));
    assert_eq!(registry.remove(40, byte), Ok(()));
    assert!(!registry.contains_as(40, byte));
    assert_eq!(registry.remove(40, byte), Err(PointerError::Invalid));
}

#[test]
fn remove_leaves_other_entries() {
    let mut registry = Registry::new();
    let byte = TypeId::of::<u8>();
    registry.insert(40, byte).unwrap();
    registry.insert(48, byte).unwrap();
    registry.remove(40, byte).unwrap();
    assert!(registry.contains_as(48, byte));
}

#[test]
fn insert_reserved_records_when_room_was_made() {
    let mut registry = Registry::new();
    let byte = TypeId::of::<u8>();
    assert_eq!(registry.insert_reserved(40, byte, Ok(())), Ok(()));
    assert_eq!(registry.type_of(40), Some(byte));
}

#[test]
fn insert_reserved_reports_the_failure_and_records_nothing() {
    let mut registry = Registry::new();
    let byte = TypeId::of::<u8>();
    let cause = reserve_failure();
    assert_eq!(
        registry.insert_reserved(40, byte, Err(cause.clone())),
        Err(PointerError::TryReserveError(cause))
    );
    assert_eq!(registry.type_of(40), None);
}

#[test]
fn lend_and_retrieve_follow_the_registry() {
    let mut registry = Registry::new();
    let byte = TypeId::of::<u8>();
    let word = TypeId::of::<u32>();
    assert_eq!(lend(&mut registry, 72, byte), Ok(()));
    assert_eq!(lent_type_of(&registry, 72), Some(byte));
    assert_eq!(retrieve(&mut registry, 72, word), Err(PointerError::InvalidType));
    assert_eq!(lent_type_of(&registry, 72), Some(byte));
    assert_eq!(retrieve(&mut registry, 72, byte), Ok(()));
    assert_eq!(lent_type_of(&registry, 72), None);
    assert_eq!(retrieve(&mut registry, 72, byte), Err(PointerError::Invalid));
}

#[test]
fn not_null_pointer_rejects_only_zero() {
    assert_eq!(not_null_pointer(0), Err(PointerError::Null));
    assert_eq!(not_null_pointer(1), Ok(()));
    assert_eq!(not_null_pointer(usize::MAX), Ok(()));
}

#[test]
fn lent_pointer_checks_presence_then_type() {
    let mut registry = Registry::new();
    let byte = TypeId::of::<u8>();
    let word = TypeId::of::<u32>();
    assert_eq!(lent_pointer(&registry, 72, byte), Err(PointerError::Invalid));
    lend(&mut registry, 72, byte).unwrap();
    assert_eq!(lent_pointer(&registry, 72, byte), Ok(()));
    assert_eq!(lent_pointer(&registry, 72, word), Err(PointerError::InvalidType));
    assert_eq!(lent_pointer(&registry, 80, word), Err(PointerError::Invalid));
    // The null address is none of this check's business.
    assert_eq!(lent_pointer(&registry, 0, byte), Err(PointerError::Invalid));
}
