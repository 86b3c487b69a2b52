use aleo_transfer::engine::{
    assemble, authorize, authorize_fee, execute, execute_fee, prove_execution, prove_fee,
    resolve_root, verify_transaction, FeeTrace, InputValue, PrivateKey, QuerySource, Trace,
    Transaction,
};
use aleo_transfer::errors::TransferError;
use aleo_transfer::ids::FunctionId;
use aleo_transfer::registry::{KeyRegistry, ProvingKey, VerifyingKey};

fn signing_key() -> PrivateKey {
    PrivateKey { bytes: b"APrivateKey1example".to_vec() }
}

fn loaded_registry() -> KeyRegistry {
    let mut registry = KeyRegistry::new();
    registry
        .ensure_key_pair(
            FunctionId::TransferPublic,
            Some(ProvingKey { bytes: vec![1] }),
            Some(VerifyingKey { bytes: vec![2] }),
        )
        .unwrap();
    registry
        .ensure_key_pair(
            FunctionId::FeePublic,
            Some(ProvingKey { bytes: vec![3] }),
            Some(VerifyingKey { bytes: vec![4] }),
        )
        .unwrap();
    registry
}

fn proved_transfer(registry: &KeyRegistry, recipient: &[u8], amount: u64, root: &[u8]) -> Transaction {
    let inputs = vec![
        InputValue::Address(recipient.to_vec()),
        InputValue::U64(amount),
    ];
    let authorization = authorize(&signing_key(), FunctionId::TransferPublic, inputs, 11).unwrap();
    let mut trace = execute(registry, authorization).unwrap();
    trace.prepare(&root.to_vec()).unwrap();
    let execution = prove_execution(trace).unwrap();
    let execution_id = execution.execution_id();
    let fee_authorization =
        authorize_fee(&signing_key(), FunctionId::FeePublic, 10_000, 0, execution_id, 12).unwrap();
    let mut fee_trace = execute_fee(registry, fee_authorization).unwrap();
    fee_trace.prepare(&root.to_vec()).unwrap();
    let fee = prove_fee(fee_trace).unwrap();
    assemble(registry, execution, Some(fee)).unwrap()
}

#[test]
fn authorization_requires_matching_signature() {
    let only_one_input = vec![InputValue::U64(5)];
    assert!(matches!(
        authorize(&signing_key(), FunctionId::TransferPublic, only_one_input, 1),
        Err(TransferError::InvalidInputs)
    ));
    let swapped = vec![InputValue::U64(5), InputValue::Address(vec![1])];
    assert!(matches!(
        authorize(&signing_key(), FunctionId::TransferPublic, swapped, 1),
        Err(TransferError::InvalidInputs)
    ));
    let fee_through_general_entry = vec![InputValue::Address(vec![1]), InputValue::U64(5)];
    assert!(matches!(
        authorize(&signing_key(), FunctionId::FeePublic, fee_through_general_entry, 1),
        Err(TransferError::InvalidInputs)
    ));
}

#[test]
fn empty_signing_key_is_rejected() {
    let inputs = vec![InputValue::Address(vec![1]), InputValue::U64(5)];
    let empty = PrivateKey { bytes: vec![] };
    assert!(matches!(
        authorize(&empty, FunctionId::TransferPublic, inputs, 1),
        Err(TransferError::InvalidInputs)
    ));
}

#[test]
fn execution_without_cached_key_reports_missing_key() {
    let registry = KeyRegistry::new();
    let inputs = vec![InputValue::Address(vec![1]), InputValue::U64(5)];
    let authorization = authorize(&signing_key(), FunctionId::TransferPublic, inputs, 1).unwrap();
    assert!(matches!(
        execute(&registry, authorization),
        Err(TransferError::MissingKey(FunctionId::TransferPublic))
    ));
}

#[test]
fn a_trace_binds_to_exactly_one_root() {
    let mut trace = Trace {
        function: FunctionId::TransferPublic,
        outputs: vec![InputValue::U64(1)],
        root: None,
    };
    assert_eq!(trace.prepare(&b"root-a".to_vec()), Ok(()));
    // binding the same root again is a no-op
    assert_eq!(trace.prepare(&b"root-a".to_vec()), Ok(()));
    // a different root is refused
    assert_eq!(
        trace.prepare(&b"root-b".to_vec()),
        Err(TransferError::QueryResolutionFailed)
    );
}

#[test]
fn an_unprepared_trace_cannot_be_proved() {
    let trace = Trace {
        function: FunctionId::TransferPublic,
        outputs: vec![InputValue::U64(1)],
        root: None,
    };
    assert!(matches!(
        prove_execution(trace),
        Err(TransferError::ProofGenerationFailed)
    ));
    let fee_trace = FeeTrace {
        function: FunctionId::FeePublic,
        base: 1,
        priority: 0,
        execution_id: 9,
        root: None,
    };
    assert!(matches!(
        prove_fee(fee_trace),
        Err(TransferError::ProofGenerationFailed)
    ));
}

#[test]
fn offline_source_resolves_to_its_own_root() {
    let source = QuerySource::Offline { state_root: b"precomputed-root".to_vec() };
    assert_eq!(resolve_root(&source, None), Ok(b"precomputed-root".to_vec()));
}

#[test]
fn online_source_needs_a_fetched_root() {
    let source = QuerySource::Online { node_url: b"https://node.example".to_vec() };
    let fetched = b"fetched-root".to_vec();
    assert_eq!(resolve_root(&source, Some(&fetched)), Ok(b"fetched-root".to_vec()));
    assert_eq!(
        resolve_root(&source, None),
        Err(TransferError::QueryResolutionFailed)
    );
}

#[test]
fn a_fee_cannot_pay_for_another_execution() {
    let registry = loaded_registry();
    let root = b"state-root";
    let tx_a = proved_transfer(&registry, b"aleo1recipienta", 2_000_000, root);
    let tx_b = proved_transfer(&registry, b"aleo1recipientb", 3_000_000, root);
    let foreign_fee = tx_a.fee.clone().unwrap();
    // the fee of transaction A must not assemble with execution B
    assert!(matches!(
        assemble(&registry, tx_b.execution.clone(), Some(foreign_fee)),
        Err(TransferError::VerificationFailed)
    ));
    // while its own fee still does
    assert!(assemble(&registry, tx_b.execution, tx_b.fee).is_ok());
}

#[test]
fn a_tampered_execution_never_verifies() {
    let registry = loaded_registry();
    let mut tx = proved_transfer(&registry, b"aleo1recipient", 2_000_000, b"state-root");
    assert_eq!(verify_transaction(&registry, &tx), Ok(()));
    // raise the transferred amount inside the proved outputs
    tx.execution.outputs[1] = InputValue::U64(999_999_999);
    assert_eq!(
        verify_transaction(&registry, &tx),
        Err(TransferError::VerificationFailed)
    );
    assert!(matches!(
        assemble(&registry, tx.execution, tx.fee),
        Err(TransferError::VerificationFailed)
    ));
}
