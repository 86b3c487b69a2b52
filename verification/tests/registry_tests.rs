use aleo_transfer::errors::TransferError;
use aleo_transfer::ids::FunctionId;
use aleo_transfer::registry::{KeyRegistry, ProvingKey, VerifyingKey};

fn proving(tag: u8) -> ProvingKey {
    ProvingKey { bytes: vec![tag, 1, 2, 3] }
}

fn verifying(tag: u8) -> VerifyingKey {
    VerifyingKey { bytes: vec![tag, 9, 8, 7] }
}

#[test]
fn installing_a_pair_makes_it_present() {
    let mut registry = KeyRegistry::new();
    assert!(!registry.contains_key_pair(FunctionId::TransferPublic));
    let r = registry.ensure_key_pair(
        FunctionId::TransferPublic,
        Some(proving(1)),
        Some(verifying(1)),
    );
    assert_eq!(r, Ok(()));
    assert!(registry.contains_key_pair(FunctionId::TransferPublic));
    assert!(!registry.contains_key_pair(FunctionId::FeePublic));
}

#[test]
fn installing_twice_equals_installing_once() {
    let mut registry = KeyRegistry::new();
    let first = registry.ensure_key_pair(
        FunctionId::FeePublic,
        Some(proving(2)),
        Some(verifying(2)),
    );
    assert_eq!(first, Ok(()));
    let second = registry.ensure_key_pair(
        FunctionId::FeePublic,
        Some(proving(2)),
        Some(verifying(2)),
    );
    assert_eq!(second, Ok(()));
    assert!(registry.contains_key_pair(FunctionId::FeePublic));
    // a later attempt with different material is also skipped, never overwritten
    let third = registry.ensure_key_pair(
        FunctionId::FeePublic,
        Some(proving(3)),
        Some(verifying(3)),
    );
    assert_eq!(third, Ok(()));
    assert!(registry.contains_key_pair(FunctionId::FeePublic));
}

#[test]
fn a_partial_pair_is_rejected_atomically() {
    let mut registry = KeyRegistry::new();
    let r = registry.ensure_key_pair(FunctionId::TransferPublic, Some(proving(4)), None);
    assert_eq!(r, Err(TransferError::InvalidInputs));
    assert!(!registry.contains_key_pair(FunctionId::TransferPublic));
    let r = registry.ensure_key_pair(FunctionId::TransferPublic, None, Some(verifying(4)));
    assert_eq!(r, Err(TransferError::InvalidInputs));
    assert!(!registry.contains_key_pair(FunctionId::TransferPublic));
}

#[test]
fn ensuring_without_keys_is_a_quiet_no_op() {
    let mut registry = KeyRegistry::new();
    let r = registry.ensure_key_pair(FunctionId::TransferPublic, None, None);
    assert_eq!(r, Ok(()));
    assert!(!registry.contains_key_pair(FunctionId::TransferPublic));
}
