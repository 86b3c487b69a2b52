use aleo_transfer::engine::{verify_transaction, InputValue, PrivateKey};
use aleo_transfer::errors::TransferError;
use aleo_transfer::ids::{FunctionId, Visibility};
use aleo_transfer::pipeline::{transfer, ProgramManager, TransferInfo};
use aleo_transfer::record::{EntryKind, EntryName, LiteralValue, Record, RecordEntry};
use aleo_transfer::registry::{KeyRegistry, ProvingKey, VerifyingKey};

fn signing_key() -> PrivateKey {
    PrivateKey { bytes: b"APrivateKey1example".to_vec() }
}

fn funded_record(microcredits: u64) -> Record {
    Record {
        entries: vec![RecordEntry {
            name: EntryName::Microcredits,
            kind: EntryKind::Private,
            value: LiteralValue::U64(microcredits),
        }],
    }
}

fn transfer_keys() -> (Option<ProvingKey>, Option<VerifyingKey>) {
    (
        Some(ProvingKey { bytes: b"transfer-prover".to_vec() }),
        Some(VerifyingKey { bytes: b"transfer-verifier".to_vec() }),
    )
}

fn fee_keys() -> (Option<ProvingKey>, Option<VerifyingKey>) {
    (
        Some(ProvingKey { bytes: b"fee-prover".to_vec() }),
        Some(VerifyingKey { bytes: b"fee-verifier".to_vec() }),
    )
}

#[test]
fn end_to_end_public_transfer() {
    let mut registry = KeyRegistry::new();
    let recipient = b"aleo1recipientexample".to_vec();
    let root = b"offline-state-root".to_vec();
    let (tpk, tvk) = transfer_keys();
    let (fpk, fvk) = fee_keys();
    let tx = ProgramManager::transfer(
        &mut registry,
        signing_key(),
        b"2.0",
        recipient.clone(),
        Visibility::Public,
        None,
        b"0.01",
        None,
        root.clone(),
        tpk,
        tvk,
        fpk,
        fvk,
    )
    .unwrap();
    // both function key pairs were installed on the way
    assert!(registry.contains_key_pair(FunctionId::TransferPublic));
    assert!(registry.contains_key_pair(FunctionId::FeePublic));
    // the execution runs transfer_public over the recipient and amount
    assert_eq!(tx.execution.function, FunctionId::TransferPublic);
    assert_eq!(tx.execution.outputs.len(), 2);
    match &tx.execution.outputs[0] {
        InputValue::Address(a) => assert_eq!(a, &recipient),
        other => panic!("expected an address output, got {:?}", other),
    }
    assert!(matches!(tx.execution.outputs[1], InputValue::U64(2_000_000)));
    assert_eq!(tx.execution.state_root, root);
    // the fee pays 10,000 microcredits, bound to this execution
    let fee = tx.fee.as_ref().unwrap();
    assert_eq!(fee.function, FunctionId::FeePublic);
    assert_eq!(fee.base, 10_000);
    assert_eq!(fee.priority, 0);
    assert_eq!(fee.bound_execution_id, tx.execution.execution_id());
    assert_eq!(fee.state_root, root);
    // independent re-verification of the returned transaction succeeds
    assert_eq!(verify_transaction(&registry, &tx), Ok(()));
    assert_eq!(verify_transaction(&registry, &tx), Ok(()));
}

#[test]
fn insufficient_funding_fails_before_any_execution() {
    let mut registry = KeyRegistry::new();
    let (tpk, tvk) = transfer_keys();
    let (fpk, fvk) = fee_keys();
    let r = ProgramManager::transfer(
        &mut registry,
        signing_key(),
        b"0.6",
        b"aleo1recipientexample".to_vec(),
        Visibility::Public,
        Some(funded_record(500_000)),
        b"0.01",
        None,
        b"offline-state-root".to_vec(),
        tpk,
        tvk,
        fpk,
        fvk,
    );
    assert_eq!(r.unwrap_err(), TransferError::InsufficientFunds);
    // the call failed before key installation: the registry is untouched
    assert!(!registry.contains_key_pair(FunctionId::TransferPublic));
    assert!(!registry.contains_key_pair(FunctionId::FeePublic));
}

#[test]
fn funding_record_covering_the_amount_passes() {
    let mut registry = KeyRegistry::new();
    let (tpk, tvk) = transfer_keys();
    let (fpk, fvk) = fee_keys();
    let tx = ProgramManager::transfer(
        &mut registry,
        signing_key(),
        b"0.5",
        b"aleo1recipientexample".to_vec(),
        Visibility::Public,
        Some(funded_record(500_000)),
        b"0.01",
        None,
        b"offline-state-root".to_vec(),
        tpk,
        tvk,
        fpk,
        fvk,
    )
    .unwrap();
    assert!(matches!(tx.execution.outputs[1], InputValue::U64(500_000)));
}

#[test]
fn a_fee_record_selects_the_private_fee_function() {
    let mut registry = KeyRegistry::new();
    let (tpk, tvk) = transfer_keys();
    let (fpk, fvk) = fee_keys();
    let tx = ProgramManager::transfer(
        &mut registry,
        signing_key(),
        b"1.0",
        b"aleo1recipientexample".to_vec(),
        Visibility::Public,
        None,
        b"0.01",
        Some(funded_record(20_000)),
        b"offline-state-root".to_vec(),
        tpk,
        tvk,
        fpk,
        fvk,
    )
    .unwrap();
    let fee = tx.fee.as_ref().unwrap();
    assert_eq!(fee.function, FunctionId::FeePrivate);
    assert!(registry.contains_key_pair(FunctionId::FeePrivate));
    assert!(!registry.contains_key_pair(FunctionId::FeePublic));
}

#[test]
fn a_fee_record_too_small_for_the_fee_fails() {
    let mut registry = KeyRegistry::new();
    let (tpk, tvk) = transfer_keys();
    let (fpk, fvk) = fee_keys();
    let r = ProgramManager::transfer(
        &mut registry,
        signing_key(),
        b"1.0",
        b"aleo1recipientexample".to_vec(),
        Visibility::Public,
        None,
        b"0.01",
        Some(funded_record(9_999)),
        b"offline-state-root".to_vec(),
        tpk,
        tvk,
        fpk,
        fvk,
    );
    assert_eq!(r.unwrap_err(), TransferError::InsufficientFunds);
}

#[test]
fn a_malformed_amount_is_rejected() {
    let mut registry = KeyRegistry::new();
    let (tpk, tvk) = transfer_keys();
    let (fpk, fvk) = fee_keys();
    let r = ProgramManager::transfer(
        &mut registry,
        signing_key(),
        b"2.0.0",
        b"aleo1recipientexample".to_vec(),
        Visibility::Public,
        None,
        b"0.01",
        None,
        b"offline-state-root".to_vec(),
        tpk,
        tvk,
        fpk,
        fvk,
    );
    assert_eq!(r.unwrap_err(), TransferError::InvalidInputs);
}

#[test]
fn missing_keys_surface_on_the_first_proof_attempt() {
    let mut registry = KeyRegistry::new();
    let r = ProgramManager::transfer(
        &mut registry,
        signing_key(),
        b"1.0",
        b"aleo1recipientexample".to_vec(),
        Visibility::Public,
        None,
        b"0.01",
        None,
        b"offline-state-root".to_vec(),
        None,
        None,
        None,
        None,
    );
    assert_eq!(
        r.unwrap_err(),
        TransferError::MissingKey(FunctionId::TransferPublic)
    );
}

fn example_info(private_key: Vec<u8>) -> TransferInfo {
    TransferInfo {
        private_key,
        receiver: b"aleo1recipientexample".to_vec(),
        amount: 2_000_000,
        fee: 10_000,
        state_root: b"offline-state-root".to_vec(),
        transfer_proving_key: b"transfer-prover".to_vec(),
        transfer_verifying_key: b"transfer-verifier".to_vec(),
        fee_proving_key: b"fee-prover".to_vec(),
        fee_verifying_key: b"fee-verifier".to_vec(),
    }
}

#[test]
fn transfer_info_runs_the_public_flow() {
    let mut registry = KeyRegistry::new();
    let tx = transfer(&mut registry, example_info(b"APrivateKey1example".to_vec())).unwrap();
    assert_eq!(tx.execution.function, FunctionId::TransferPublic);
    assert!(matches!(tx.execution.outputs[1], InputValue::U64(2_000_000)));
    assert_eq!(tx.fee.as_ref().unwrap().base, 10_000);
    assert_eq!(verify_transaction(&registry, &tx), Ok(()));
}

#[test]
fn transfer_info_with_an_empty_key_is_rejected() {
    let mut registry = KeyRegistry::new();
    let r = transfer(&mut registry, example_info(vec![]));
    assert_eq!(r.unwrap_err(), TransferError::InvalidInputs);
}
