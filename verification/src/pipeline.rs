//! The transfer pipeline: from a caller's request to an assembled,
//! self-verified transaction, in the fixed stage order
//! keys → authorize → execute → prepare → prove → fee → assemble → verify,
//! failing atomically with the first error encountered.

use vstd::prelude::*;
use crate::amount::{decimal_micro, parse_credits, valid_decimal, validate_amount};
use crate::engine::{
    assemble, authorize, authorize_fee, execute, execute_fee, prove_execution, prove_fee,
    spec_transaction_check, verify_execution, InputValue, PrivateKey, Transaction,
};
use crate::errors::TransferError;
use crate::ids::{fee_function, spec_fee_function, spec_transfer_function, transfer_function,
    FunctionId, Visibility};
use crate::record::Record;
use crate::registry::{spec_ensure, spec_ensure_result, spec_pair_of, KeyPairV, KeyRegistry,
    ProvingKey, VerifyingKey};

verus! {

/// Everything a caller supplies for one transfer: the signing key, the
/// recipient, amounts already converted to microcredits, the visibility
/// mode, optional funding records, the state root the proofs bind to, and
/// optional key material for the two functions involved.
pub struct TransferRequest {
    pub private_key: PrivateKey,
    pub recipient: Vec<u8>,
    pub amount_microcredits: u64,
    pub visibility: Visibility,
    pub amount_record: Option<Record>,
    pub fee_microcredits: u64,
    pub fee_record: Option<Record>,
    pub state_root: Vec<u8>,
    pub transfer_proving_key: Option<ProvingKey>,
    pub transfer_verifying_key: Option<VerifyingKey>,
    pub fee_proving_key: Option<ProvingKey>,
    pub fee_verifying_key: Option<VerifyingKey>,
}

/// The outcome of validating a requested amount against an optional
/// funding record: without a record the amount passes through; with one,
/// the record's `microcredits` field must cover it.
pub open spec fn spec_validated(amount: u64, rec: Option<Record>) -> Result<u64, TransferError> {
    match rec {
        None => Ok(amount),
        Some(r) => match r.spec_microcredits() {
            None => Err(TransferError::InvalidInputs),
            Some(v) => if amount <= v {
                Ok(amount)
            } else {
                Err(TransferError::InsufficientFunds)
            },
        },
    }
}

/// The registry's mapping after a transfer call: unchanged if a funding
/// validation failed or the fee pair was partial, otherwise with the fee
/// pair and then the transfer pair installed where absent.
pub open spec fn spec_registry_after(
    m: Map<FunctionId, KeyPairV>,
    req: TransferRequest,
) -> Map<FunctionId, KeyPairV> {
    let fee_id = spec_fee_function(req.fee_record is Some);
    let tid = spec_transfer_function(req.visibility);
    match spec_validated(req.fee_microcredits, req.fee_record) {
        Err(_) => m,
        Ok(_) => match spec_validated(req.amount_microcredits, req.amount_record) {
            Err(_) => m,
            Ok(_) => match spec_ensure_result(
                m,
                fee_id,
                req.fee_proving_key is Some,
                req.fee_verifying_key is Some,
            ) {
                Err(_) => m,
                Ok(_) => spec_ensure(
                    spec_ensure(m, fee_id, spec_pair_of(req.fee_proving_key, req.fee_verifying_key)),
                    tid,
                    spec_pair_of(req.transfer_proving_key, req.transfer_verifying_key),
                ),
            },
        },
    }
}

/// The first failure a transfer call reports for a given request and
/// registry state, or `None` when the call succeeds: fee funding, then
/// amount funding, then fee and transfer key installation, then the
/// signing key, then the cached pairs the later stages need.
pub open spec fn spec_first_failure(
    m: Map<FunctionId, KeyPairV>,
    req: TransferRequest,
) -> Option<TransferError> {
    let fee_id = spec_fee_function(req.fee_record is Some);
    let tid = spec_transfer_function(req.visibility);
    match spec_validated(req.fee_microcredits, req.fee_record) {
        Err(e) => Some(e),
        Ok(_) => match spec_validated(req.amount_microcredits, req.amount_record) {
            Err(e) => Some(e),
            Ok(_) => match spec_ensure_result(
                m,
                fee_id,
                req.fee_proving_key is Some,
                req.fee_verifying_key is Some,
            ) {
                Err(e) => Some(e),
                Ok(_) => {
                    let m1 = spec_ensure(
                        m,
                        fee_id,
                        spec_pair_of(req.fee_proving_key, req.fee_verifying_key),
                    );
                    match spec_ensure_result(
                        m1,
                        tid,
                        req.transfer_proving_key is Some,
                        req.transfer_verifying_key is Some,
                    ) {
                        Err(e) => Some(e),
                        Ok(_) => {
                            let m2 = spec_ensure(
                                m1,
                                tid,
                                spec_pair_of(
                                    req.transfer_proving_key,
                                    req.transfer_verifying_key,
                                ),
                            );
                            if req.private_key.bytes@.len() == 0 {
                                Some(TransferError::InvalidInputs)
                            } else if !m2.dom().contains(tid) {
                                Some(TransferError::MissingKey(tid))
                            } else if !m2.dom().contains(fee_id) {
                                Some(TransferError::MissingKey(fee_id))
                            } else {
                                None
                            }
                        },
                    }
                },
            },
        },
    }
}

/// What a successful transfer call returns: an execution of the selected
/// transfer function over exactly the requested recipient and amount,
/// bound to the requested state root and passing verification, carrying a
/// fee of the requested base amount and zero priority, bound to that
/// execution's identifier and itself passing verification.
pub open spec fn spec_transaction_matches(tx: Transaction, req: TransferRequest) -> bool {
    &&& tx.execution.function == spec_transfer_function(req.visibility)
    &&& tx.execution.outputs@.len() == 2
    &&& (tx.execution.outputs@[0] matches InputValue::Address(a) && a@ == req.recipient@)
    &&& tx.execution.outputs@[1] == InputValue::U64(req.amount_microcredits)
    &&& tx.execution.state_root@ == req.state_root@
    &&& tx.execution.spec_verifies()
    &&& (tx.fee matches Some(f) && {
        &&& f.function == spec_fee_function(req.fee_record is Some)
        &&& f.base == req.fee_microcredits
        &&& f.priority == 0
        &&& f.bound_execution_id == tx.execution.spec_id()
        &&& f.state_root@ == req.state_root@
        &&& f.spec_verifies()
    })
}

/// Runs one transfer: validates funding, installs supplied key pairs
/// where absent, authorizes and executes the transfer, binds the trace to
/// the requested state root, proves it, verifies it, then authorizes,
/// executes and proves the fee bound to the execution's identifier, and
/// assembles the self-verified transaction. The two nonces are the fresh
/// signing randomness for the two authorizations, one each.
pub fn create_transfer(
    registry: &mut KeyRegistry,
    req: TransferRequest,
    nonce: u64,
    fee_nonce: u64,
) -> (r: Result<Transaction, TransferError>)
    requires
        old(registry).wf(),
    ensures
        final(registry).wf(),
        final(registry).key_map() == spec_registry_after(old(registry).key_map(), req),
        match r {
            Ok(tx) => spec_first_failure(old(registry).key_map(), req) is None
                && spec_transaction_matches(tx, req),
            Err(e) => spec_first_failure(old(registry).key_map(), req) == Some(e),
        },
{
    let fee_micro = match &req.fee_record {
        Some(rec) => match validate_amount(req.fee_microcredits, rec) {
            Ok(m) => m,
            Err(e) => {
                return Err(e);
            },
        },
        None => req.fee_microcredits,
    };
    let amount_micro = match &req.amount_record {
        Some(rec) => match validate_amount(req.amount_microcredits, rec) {
            Ok(m) => m,
            Err(e) => {
                return Err(e);
            },
        },
        None => req.amount_microcredits,
    };
    let fee_id = fee_function(req.fee_record.is_some());
    let tid = transfer_function(req.visibility);
    match registry.ensure_key_pair(fee_id, req.fee_proving_key, req.fee_verifying_key) {
        Ok(()) => {},
        Err(e) => {
            return Err(e);
        },
    }
    match registry.ensure_key_pair(tid, req.transfer_proving_key, req.transfer_verifying_key) {
        Ok(()) => {},
        Err(e) => {
            return Err(e);
        },
    }
    let mut inputs: Vec<InputValue> = Vec::new();
    inputs.push(InputValue::Address(req.recipient));
    inputs.push(InputValue::U64(amount_micro));
    let authorization = match authorize(&req.private_key, tid, inputs, nonce) {
        Ok(a) => a,
        Err(e) => {
            return Err(e);
        },
    };
    let mut trace = match execute(registry, authorization) {
        Ok(t) => t,
        Err(e) => {
            return Err(e);
        },
    };
    match trace.prepare(&req.state_root) {
        Ok(()) => {},
        Err(e) => {
            return Err(e);
        },
    }
    let execution = match prove_execution(trace) {
        Ok(ex) => ex,
        Err(e) => {
            return Err(e);
        },
    };
    match verify_execution(registry, &execution) {
        Ok(()) => {},
        Err(e) => {
            return Err(e);
        },
    }
    let execution_id = execution.execution_id();
    let fee_authorization = match authorize_fee(
        &req.private_key,
        fee_id,
        fee_micro,
        0,
        execution_id,
        fee_nonce,
    ) {
        Ok(a) => a,
        Err(e) => {
            return Err(e);
        },
    };
    let mut fee_trace = match execute_fee(registry, fee_authorization) {
        Ok(t) => t,
        Err(e) => {
            return Err(e);
        },
    };
    match fee_trace.prepare(&req.state_root) {
        Ok(()) => {},
        Err(e) => {
            return Err(e);
        },
    }
    let fee = match prove_fee(fee_trace) {
        Ok(f) => f,
        Err(e) => {
            return Err(e);
        },
    };
    assemble(registry, execution, Some(fee))
}

/// A transfer whose amount exceeds the funding record's microcredits
/// fails with `InsufficientFunds` as its first failure — before any key
/// is installed, any authorization is signed or any execution is
/// attempted, so the registry is left untouched.
pub proof fn lemma_insufficient_funds_fails_first(
    m: Map<FunctionId, KeyPairV>,
    req: TransferRequest,
)
    requires
        spec_validated(req.fee_microcredits, req.fee_record) is Ok,
        req.amount_record matches Some(rec) && rec.spec_microcredits() matches Some(v) && v
            < req.amount_microcredits,
    ensures
        spec_first_failure(m, req) == Some(TransferError::InsufficientFunds),
        spec_registry_after(m, req) == m,
{
}

/// A transaction the pipeline returns always passes independent
/// re-verification against the registry state the pipeline left behind.
pub proof fn lemma_returned_transaction_reverifies(
    m: Map<FunctionId, KeyPairV>,
    req: TransferRequest,
    tx: Transaction,
)
    requires
        spec_first_failure(m, req) is None,
        spec_transaction_matches(tx, req),
    ensures
        spec_transaction_check(spec_registry_after(m, req), tx) == Ok::<(), TransferError>(()),
{
}

/// Relies on rand::random: draws a fresh 64-bit value from the process
/// entropy source. Nothing is assumed of the value drawn; each
/// authorization receives its own draw.
#[verifier::external_body]
fn fresh_nonce() -> u64 {
    rand::random::<u64>()
}

/// A decimal numeral of credits that denotes a representable amount of
/// microcredits.
pub open spec fn spec_parsable(s: Seq<u8>) -> bool {
    valid_decimal(s) && decimal_micro(s) <= u64::MAX
}

/// The plain transfer parameters carried across the process boundary:
/// amounts already in microcredits, every key required, public transfer,
/// no funding records, an offline state root.
pub struct TransferInfo {
    pub private_key: Vec<u8>,
    pub receiver: Vec<u8>,
    pub amount: u64,
    pub fee: u64,
    pub state_root: Vec<u8>,
    pub transfer_proving_key: Vec<u8>,
    pub transfer_verifying_key: Vec<u8>,
    pub fee_proving_key: Vec<u8>,
    pub fee_verifying_key: Vec<u8>,
}

/// The request a `TransferInfo` denotes.
pub open spec fn spec_info_request(info: TransferInfo) -> TransferRequest {
    TransferRequest {
        private_key: PrivateKey { bytes: info.private_key },
        recipient: info.receiver,
        amount_microcredits: info.amount,
        visibility: Visibility::Public,
        amount_record: None,
        fee_microcredits: info.fee,
        fee_record: None,
        state_root: info.state_root,
        transfer_proving_key: Some(ProvingKey { bytes: info.transfer_proving_key }),
        transfer_verifying_key: Some(VerifyingKey { bytes: info.transfer_verifying_key }),
        fee_proving_key: Some(ProvingKey { bytes: info.fee_proving_key }),
        fee_verifying_key: Some(VerifyingKey { bytes: info.fee_verifying_key }),
    }
}

/// Runs the public transfer described by a `TransferInfo`: all four keys
/// are supplied, so the only possible failure is an empty signing key.
pub fn transfer(registry: &mut KeyRegistry, info: TransferInfo) -> (r: Result<
    Transaction,
    TransferError,
>)
    requires
        old(registry).wf(),
    ensures
        final(registry).wf(),
        final(registry).key_map() == spec_registry_after(
            old(registry).key_map(),
            spec_info_request(info),
        ),
        match r {
            Ok(tx) => info.private_key@.len() > 0 && spec_transaction_matches(
                tx,
                spec_info_request(info),
            ),
            Err(e) => info.private_key@.len() == 0 && e == TransferError::InvalidInputs,
        },
{
    let ghost m = registry.key_map();
    let ghost req = spec_info_request(info);
    proof {
        let fee_id = spec_fee_function(false);
        let tid = spec_transfer_function(Visibility::Public);
        let m1 = spec_ensure(m, fee_id, spec_pair_of(req.fee_proving_key, req.fee_verifying_key));
        let m2 = spec_ensure(
            m1,
            tid,
            spec_pair_of(req.transfer_proving_key, req.transfer_verifying_key),
        );
        assert(m1.dom().contains(fee_id));
        assert(m2.dom().contains(tid));
        assert(m2.dom().contains(fee_id));
    }
    let nonce = fresh_nonce();
    let fee_nonce = fresh_nonce();
    let request = TransferRequest {
        private_key: PrivateKey { bytes: info.private_key },
        recipient: info.receiver,
        amount_microcredits: info.amount,
        visibility: Visibility::Public,
        amount_record: None,
        fee_microcredits: info.fee,
        fee_record: None,
        state_root: info.state_root,
        transfer_proving_key: Some(ProvingKey { bytes: info.transfer_proving_key }),
        transfer_verifying_key: Some(VerifyingKey { bytes: info.transfer_verifying_key }),
        fee_proving_key: Some(ProvingKey { bytes: info.fee_proving_key }),
        fee_verifying_key: Some(VerifyingKey { bytes: info.fee_verifying_key }),
    };
    create_transfer(registry, request, nonce, fee_nonce)
}

/// The manager over the credits program's transfer flows.
pub struct ProgramManager {}

/// The request that the manager's parameters denote, amounts parsed from
/// their decimal numerals.
pub open spec fn spec_manager_request(
    private_key: PrivateKey,
    recipient: Vec<u8>,
    amount_credits: Seq<u8>,
    visibility: Visibility,
    amount_record: Option<Record>,
    fee_credits: Seq<u8>,
    fee_record: Option<Record>,
    state_root: Vec<u8>,
    transfer_proving_key: Option<ProvingKey>,
    transfer_verifying_key: Option<VerifyingKey>,
    fee_proving_key: Option<ProvingKey>,
    fee_verifying_key: Option<VerifyingKey>,
) -> TransferRequest {
    TransferRequest {
        private_key,
        recipient,
        amount_microcredits: decimal_micro(amount_credits) as u64,
        visibility,
        amount_record,
        fee_microcredits: decimal_micro(fee_credits) as u64,
        fee_record,
        state_root,
        transfer_proving_key,
        transfer_verifying_key,
        fee_proving_key,
        fee_verifying_key,
    }
}

impl ProgramManager {
    /// Sends credits from one account to another: parses the two decimal
    /// credit amounts (fee first, as the funding of the fee is validated
    /// first), then runs the transfer pipeline with fresh signing
    /// randomness for each authorization.
    pub fn transfer(
        registry: &mut KeyRegistry,
        private_key: PrivateKey,
        amount_credits: &[u8],
        recipient: Vec<u8>,
        visibility: Visibility,
        amount_record: Option<Record>,
        fee_credits: &[u8],
        fee_record: Option<Record>,
        state_root: Vec<u8>,
        transfer_proving_key: Option<ProvingKey>,
        transfer_verifying_key: Option<VerifyingKey>,
        fee_proving_key: Option<ProvingKey>,
        fee_verifying_key: Option<VerifyingKey>,
    ) -> (r: Result<Transaction, TransferError>)
        requires
            old(registry).wf(),
        ensures
            final(registry).wf(),
            final(registry).key_map() == (if spec_parsable(fee_credits@) && spec_parsable(
                amount_credits@,
            ) {
                spec_registry_after(
                    old(registry).key_map(),
                    spec_manager_request(
                        private_key,
                        recipient,
                        amount_credits@,
                        visibility,
                        amount_record,
                        fee_credits@,
                        fee_record,
                        state_root,
                        transfer_proving_key,
                        transfer_verifying_key,
                        fee_proving_key,
                        fee_verifying_key,
                    ),
                )
            } else {
                old(registry).key_map()
            }),
            match r {
                Ok(tx) => spec_parsable(fee_credits@) && spec_parsable(amount_credits@)
                    && spec_first_failure(
                    old(registry).key_map(),
                    spec_manager_request(
                        private_key,
                        recipient,
                        amount_credits@,
                        visibility,
                        amount_record,
                        fee_credits@,
                        fee_record,
                        state_root,
                        transfer_proving_key,
                        transfer_verifying_key,
                        fee_proving_key,
                        fee_verifying_key,
                    ),
                ) is None && spec_transaction_matches(
                    tx,
                    spec_manager_request(
                        private_key,
                        recipient,
                        amount_credits@,
                        visibility,
                        amount_record,
                        fee_credits@,
                        fee_record,
                        state_root,
                        transfer_proving_key,
                        transfer_verifying_key,
                        fee_proving_key,
                        fee_verifying_key,
                    ),
                ),
                Err(e) => (!spec_parsable(fee_credits@) && e == TransferError::InvalidInputs) || (
                spec_parsable(fee_credits@) && !spec_parsable(amount_credits@) && e
                    == TransferError::InvalidInputs) || (spec_parsable(fee_credits@)
                    && spec_parsable(amount_credits@) && spec_first_failure(
                    old(registry).key_map(),
                    spec_manager_request(
                        private_key,
                        recipient,
                        amount_credits@,
                        visibility,
                        amount_record,
                        fee_credits@,
                        fee_record,
                        state_root,
                        transfer_proving_key,
                        transfer_verifying_key,
                        fee_proving_key,
                        fee_verifying_key,
                    ),
                ) == Some(e)),
            },
    {
        let fee_microcredits = match parse_credits(fee_credits) {
            Ok(m) => m,
            Err(e) => {
                return Err(e);
            },
        };
        let amount_microcredits = match parse_credits(amount_credits) {
            Ok(m) => m,
            Err(e) => {
                return Err(e);
            },
        };
        let nonce = fresh_nonce();
        let fee_nonce = fresh_nonce();
        let request = TransferRequest {
            private_key,
            recipient,
            amount_microcredits,
            visibility,
            amount_record,
            fee_microcredits,
            fee_record,
            state_root,
            transfer_proving_key,
            transfer_verifying_key,
            fee_proving_key,
            fee_verifying_key,
        };
        create_transfer(registry, request, nonce, fee_nonce)
    }
}

} // verus!
