//! A structural model of the proving engine's observable artifacts.
//!
//! The real proving engine is a cryptographic black box; what this
//! pipeline depends on is only the bookkeeping it guarantees: an
//! authorization names one function and is consumed exactly once, a trace
//! is bound to exactly one state root before it can be proved, an
//! execution carries a content-binding identifier, a fee is bound to the
//! identifier of exactly one execution, and verification accepts an
//! execution iff its certificate was produced over exactly its content.
//! Identifiers and certificates are modelled as structural digests over
//! the artifact's content: equal content gives equal digests, and every
//! check below is stated and proved in terms of them.

use vstd::prelude::*;
use crate::errors::TransferError;
use crate::ids::FunctionId;
use crate::registry::{KeyPairV, KeyRegistry};

verus! {

/// The seed of the digest that serves as an execution's identifier.
pub const EXECUTION_ID_SEED: u64 = 1;

/// The seed of the digest that serves as an execution's certificate.
pub const EXECUTION_CERT_SEED: u64 = 2;

/// The seed of the digest that serves as a fee's certificate.
pub const FEE_CERT_SEED: u64 = 3;

/// A caller's secret key, in its interchange encoding. It is only ever
/// read to sign authorizations and is never persisted by the pipeline.
#[derive(Clone, Debug)]
pub struct PrivateKey {
    pub bytes: Vec<u8>,
}

/// One typed input or output value of a program function.
#[derive(Clone, Debug)]
pub enum InputValue {
    U64(u64),
    Address(Vec<u8>),
}

/// One step of the rolling digest, modulo two to the sixty-fourth.
pub open spec fn digest_step(acc: u64, x: u64) -> u64 {
    (((acc * 31 + x) % 0x1_0000_0000_0000_0000) as u64)
}

/// The rolling digest of a byte sequence.
pub open spec fn digest_bytes(acc: u64, s: Seq<u8>) -> u64
    decreases s.len(),
{
    if s.len() == 0 {
        acc
    } else {
        digest_step(digest_bytes(acc, s.drop_last()), s.last() as u64)
    }
}

/// The rolling digest of one typed value.
pub open spec fn digest_value(acc: u64, v: InputValue) -> u64 {
    match v {
        InputValue::U64(x) => digest_step(digest_step(acc, 1), x),
        InputValue::Address(b) => digest_bytes(
            digest_step(digest_step(acc, 2), b@.len() as u64),
            b@,
        ),
    }
}

/// The rolling digest of a sequence of typed values.
pub open spec fn digest_values(acc: u64, vs: Seq<InputValue>) -> u64
    decreases vs.len(),
{
    if vs.len() == 0 {
        acc
    } else {
        digest_value(digest_values(acc, vs.drop_last()), vs.last())
    }
}

/// A numeric code for each function identifier, folded into digests.
pub open spec fn spec_fid_code(f: FunctionId) -> u64 {
    match f {
        FunctionId::TransferPrivate => 1,
        FunctionId::TransferPublic => 2,
        FunctionId::TransferPrivateToPublic => 3,
        FunctionId::TransferPublicToPrivate => 4,
        FunctionId::FeePublic => 5,
        FunctionId::FeePrivate => 6,
    }
}

/// The digest of an execution's content under a given seed.
pub open spec fn spec_content_digest(
    seed: u64,
    f: FunctionId,
    outputs: Seq<InputValue>,
    root: Seq<u8>,
) -> u64 {
    digest_bytes(digest_values(digest_step(seed, spec_fid_code(f)), outputs), root)
}

/// The digest of a fee's content under a given seed.
pub open spec fn spec_fee_digest(
    seed: u64,
    f: FunctionId,
    base: u64,
    priority: u64,
    execution_id: u64,
    root: Seq<u8>,
) -> u64 {
    digest_bytes(
        digest_step(
            digest_step(digest_step(digest_step(seed, spec_fid_code(f)), base), priority),
            execution_id,
        ),
        root,
    )
}

fn fid_code(f: FunctionId) -> (r: u64)
    ensures
        r == spec_fid_code(f),
{
    match f {
        FunctionId::TransferPrivate => 1,
        FunctionId::TransferPublic => 2,
        FunctionId::TransferPrivateToPublic => 3,
        FunctionId::TransferPublicToPrivate => 4,
        FunctionId::FeePublic => 5,
        FunctionId::FeePrivate => 6,
    }
}

fn digest_step_x(acc: u64, x: u64) -> (r: u64)
    ensures
        r == digest_step(acc, x),
{
    (((acc as u128) * 31 + (x as u128)) % 0x1_0000_0000_0000_0000u128) as u64
}

proof fn lemma_digest_bytes_step(acc: u64, s: Seq<u8>, j: int)
    requires
        0 <= j < s.len(),
    ensures
        digest_bytes(acc, s.take(j + 1)) == digest_step(
            digest_bytes(acc, s.take(j)),
            s[j] as u64,
        ),
{
    assert(s.take(j + 1).drop_last() =~= s.take(j));
    assert(s.take(j + 1).last() == s[j]);
}

proof fn lemma_digest_values_step(acc: u64, s: Seq<InputValue>, j: int)
    requires
        0 <= j < s.len(),
    ensures
        digest_values(acc, s.take(j + 1)) == digest_value(digest_values(acc, s.take(j)), s[j]),
{
    assert(s.take(j + 1).drop_last() =~= s.take(j));
    assert(s.take(j + 1).last() == s[j]);
}

fn digest_bytes_x(acc: u64, s: &Vec<u8>) -> (r: u64)
    ensures
        r == digest_bytes(acc, s@),
{
    let n = s.len();
    let mut d = acc;
    let mut i: usize = 0;
    while i < n
        invariant
            n == s@.len(),
            0 <= i <= n,
            d == digest_bytes(acc, s@.take(i as int)),
        decreases n - i,
    {
        proof {
            lemma_digest_bytes_step(acc, s@, i as int);
        }
        d = digest_step_x(d, s[i] as u64);
        i = i + 1;
    }
    proof {
        assert(s@.take(n as int) =~= s@);
    }
    d
}

fn digest_value_x(acc: u64, v: &InputValue) -> (r: u64)
    ensures
        r == digest_value(acc, *v),
{
    match v {
        InputValue::U64(x) => digest_step_x(digest_step_x(acc, 1), *x),
        InputValue::Address(b) => digest_bytes_x(
            digest_step_x(digest_step_x(acc, 2), b.len() as u64),
            b,
        ),
    }
}

fn digest_values_x(acc: u64, vs: &Vec<InputValue>) -> (r: u64)
    ensures
        r == digest_values(acc, vs@),
{
    let n = vs.len();
    let mut d = acc;
    let mut i: usize = 0;
    while i < n
        invariant
            n == vs@.len(),
            0 <= i <= n,
            d == digest_values(acc, vs@.take(i as int)),
        decreases n - i,
    {
        proof {
            lemma_digest_values_step(acc, vs@, i as int);
        }
        d = digest_value_x(d, &vs[i]);
        i = i + 1;
    }
    proof {
        assert(vs@.take(n as int) =~= vs@);
    }
    d
}

/// Compares two byte strings for equality of content.
pub fn bytes_eq(a: &Vec<u8>, b: &Vec<u8>) -> (r: bool)
    ensures
        r == (a@ == b@),
{
    if a.len() != b.len() {
        proof {
            assert(a@.len() != b@.len());
        }
        return false;
    }
    let n = a.len();
    let mut i: usize = 0;
    while i < n
        invariant
            n == a@.len(),
            n == b@.len(),
            0 <= i <= n,
            forall|j: int| 0 <= j < i ==> a@[j] == b@[j],
        decreases n - i,
    {
        if a[i] != b[i] {
            return false;
        }
        i = i + 1;
    }
    proof {
        assert(a@ =~= b@);
    }
    true
}

/// Whether a sequence of inputs matches the declared signature of a
/// function: the transfer functions take a recipient address and a `u64`
/// amount; the fee functions are authorized through their own entry point
/// and never through the general one.
pub open spec fn spec_inputs_match(f: FunctionId, inputs: Seq<InputValue>) -> bool {
    match f {
        FunctionId::FeePublic => false,
        FunctionId::FeePrivate => false,
        _ => inputs.len() == 2 && (inputs[0] is Address) && (inputs[1] is U64),
    }
}

/// A signed intent to invoke one function with given inputs; produced
/// once and consumed exactly once by execution.
#[derive(Clone, Debug)]
pub struct Authorization {
    pub function: FunctionId,
    pub inputs: Vec<InputValue>,
    pub nonce: u64,
}

/// Signs an authorization for one function invocation. The key must be
/// non-empty and the inputs must match the function's declared signature;
/// a mismatch is rejected with `InvalidInputs`. The nonce is the fresh
/// signing randomness, drawn once per authorization by the caller.
pub fn authorize(
    private_key: &PrivateKey,
    function: FunctionId,
    inputs: Vec<InputValue>,
    nonce: u64,
) -> (r: Result<Authorization, TransferError>)
    ensures
        match r {
            Ok(a) => private_key.bytes@.len() > 0 && spec_inputs_match(function, inputs@)
                && a.function == function && a.inputs@ == inputs@ && a.nonce == nonce,
            Err(e) => (private_key.bytes@.len() == 0 || !spec_inputs_match(function, inputs@))
                && e == TransferError::InvalidInputs,
        },
{
    if private_key.bytes.len() == 0 {
        return Err(TransferError::InvalidInputs);
    }
    let ok = match function {
        FunctionId::FeePublic => false,
        FunctionId::FeePrivate => false,
        _ => {
            if inputs.len() == 2 {
                let first_is_address = match &inputs[0] {
                    InputValue::Address(_) => true,
                    InputValue::U64(_) => false,
                };
                let second_is_u64 = match &inputs[1] {
                    InputValue::U64(_) => true,
                    InputValue::Address(_) => false,
                };
                first_is_address && second_is_u64
            } else {
                false
            }
        },
    };
    if ok {
        Ok(Authorization { function, inputs, nonce })
    } else {
        Err(TransferError::InvalidInputs)
    }
}

/// The unproven register assignments of one execution, mutable only
/// through the preparation step that binds it to a state root.
#[derive(Clone, Debug)]
pub struct Trace {
    pub function: FunctionId,
    pub outputs: Vec<InputValue>,
    pub root: Option<Vec<u8>>,
}

impl Trace {
    /// Binds the trace irreversibly to one state root. Binding the same
    /// root again is a no-op; a different root is refused.
    pub fn prepare(&mut self, root: &Vec<u8>) -> (r: Result<(), TransferError>)
        ensures
            final(self).function == old(self).function,
            final(self).outputs@ == old(self).outputs@,
            match r {
                Ok(()) => (old(self).root is None || (old(self).root matches Some(r0) && r0@
                    == root@)) && (final(self).root matches Some(r1) && r1@ == root@),
                Err(e) => old(self).root matches Some(r0) && r0@ != root@ && final(self).root
                    == old(self).root && e == TransferError::QueryResolutionFailed,
            },
    {
        match &self.root {
            None => {
                self.root = Some(root.clone());
                Ok(())
            },
            Some(r0) => {
                if bytes_eq(r0, root) {
                    Ok(())
                } else {
                    Err(TransferError::QueryResolutionFailed)
                }
            },
        }
    }
}

/// Where the state root a trace binds to comes from: fetched from a live
/// node, or supplied directly as a precomputed root for air-gapped use.
#[derive(Clone, Debug)]
pub enum QuerySource {
    Online { node_url: Vec<u8> },
    Offline { state_root: Vec<u8> },
}

/// Resolves the state root of a query source. An offline source carries
/// its root; for an online source the caller's network layer performs the
/// fetch and hands the fetched root in — absent that, resolution fails.
pub fn resolve_root(source: &QuerySource, fetched_root: Option<&Vec<u8>>) -> (r: Result<
    Vec<u8>,
    TransferError,
>)
    ensures
        match r {
            Ok(rt) => (source matches QuerySource::Offline { state_root } && rt@ == state_root@)
                || (source matches QuerySource::Online { .. } && fetched_root matches Some(f)
                && rt@ == f@),
            Err(e) => source matches QuerySource::Online { .. } && fetched_root is None && e
                == TransferError::QueryResolutionFailed,
        },
{
    match source {
        QuerySource::Offline { state_root } => Ok(state_root.clone()),
        QuerySource::Online { node_url: _ } => match fetched_root {
            Some(f) => Ok(f.clone()),
            None => Err(TransferError::QueryResolutionFailed),
        },
    }
}

/// Executes a consumed authorization against the registry's program
/// state, producing an unprepared trace. The function's key pair must be
/// cached, else the stage fails with `MissingKey`. The model's register
/// assignments are exactly the authorized inputs: no randomness leaks
/// into them.
pub fn execute(registry: &KeyRegistry, authorization: Authorization) -> (r: Result<
    Trace,
    TransferError,
>)
    ensures
        match r {
            Ok(t) => registry.key_map().dom().contains(authorization.function) && t.function
                == authorization.function && t.outputs@ == authorization.inputs@ && t.root is None,
            Err(e) => !registry.key_map().dom().contains(authorization.function) && e
                == TransferError::MissingKey(authorization.function),
        },
{
    if !registry.contains_key_pair(authorization.function) {
        return Err(TransferError::MissingKey(authorization.function));
    }
    Ok(Trace { function: authorization.function, outputs: authorization.inputs, root: None })
}

/// A proved trace: content plus the certificate produced over exactly
/// that content. It exposes a derivable content-binding identifier.
#[derive(Clone, Debug)]
pub struct Execution {
    pub function: FunctionId,
    pub outputs: Vec<InputValue>,
    pub state_root: Vec<u8>,
    pub certificate: u64,
}

impl Execution {
    /// The content-binding identifier of the execution.
    pub open spec fn spec_id(self) -> u64 {
        spec_content_digest(EXECUTION_ID_SEED, self.function, self.outputs@, self.state_root@)
    }

    /// The certificate that a sound prover produces for this content.
    pub open spec fn spec_certificate(self) -> u64 {
        spec_content_digest(EXECUTION_CERT_SEED, self.function, self.outputs@, self.state_root@)
    }

    /// Whether the execution passes verification: its certificate binds
    /// exactly its present content.
    pub open spec fn spec_verifies(self) -> bool {
        self.certificate == self.spec_certificate()
    }

    /// Derives the execution's content-binding identifier.
    pub fn execution_id(&self) -> (r: u64)
        ensures
            r == self.spec_id(),
    {
        let d = digest_step_x(EXECUTION_ID_SEED, fid_code(self.function));
        let d = digest_values_x(d, &self.outputs);
        digest_bytes_x(d, &self.state_root)
    }
}

/// Proves a prepared trace into an execution. A trace that was never
/// bound to a state root is a structural error, reported as
/// `ProofGenerationFailed`; proving is never retried.
pub fn prove_execution(trace: Trace) -> (r: Result<Execution, TransferError>)
    ensures
        match r {
            Ok(e) => trace.root matches Some(rt) && e.function == trace.function && e.outputs@
                == trace.outputs@ && e.state_root@ == rt@ && e.spec_verifies(),
            Err(err) => trace.root is None && err == TransferError::ProofGenerationFailed,
        },
{
    match trace.root {
        Some(rt) => {
            let d = digest_step_x(EXECUTION_CERT_SEED, fid_code(trace.function));
            let d = digest_values_x(d, &trace.outputs);
            let cert = digest_bytes_x(d, &rt);
            Ok(Execution {
                function: trace.function,
                outputs: trace.outputs,
                state_root: rt,
                certificate: cert,
            })
        },
        None => Err(TransferError::ProofGenerationFailed),
    }
}

/// A signed intent to pay the fee for one specific execution.
#[derive(Clone, Debug)]
pub struct FeeAuthorization {
    pub function: FunctionId,
    pub base: u64,
    pub priority: u64,
    pub execution_id: u64,
    pub nonce: u64,
}

/// Signs a fee authorization bound to one execution's identifier. The
/// function must be one of the two fee functions and the key non-empty.
pub fn authorize_fee(
    private_key: &PrivateKey,
    function: FunctionId,
    base: u64,
    priority: u64,
    execution_id: u64,
    nonce: u64,
) -> (r: Result<FeeAuthorization, TransferError>)
    ensures
        match r {
            Ok(a) => private_key.bytes@.len() > 0 && (function == FunctionId::FeePublic
                || function == FunctionId::FeePrivate) && a.function == function && a.base == base
                && a.priority == priority && a.execution_id == execution_id && a.nonce == nonce,
            Err(e) => (private_key.bytes@.len() == 0 || !(function == FunctionId::FeePublic
                || function == FunctionId::FeePrivate)) && e == TransferError::InvalidInputs,
        },
{
    if private_key.bytes.len() == 0 {
        return Err(TransferError::InvalidInputs);
    }
    let is_fee = match function {
        FunctionId::FeePublic => true,
        FunctionId::FeePrivate => true,
        _ => false,
    };
    if is_fee {
        Ok(FeeAuthorization { function, base, priority, execution_id, nonce })
    } else {
        Err(TransferError::InvalidInputs)
    }
}

/// The unproven trace of a fee payment, bound to the paying execution.
#[derive(Clone, Debug)]
pub struct FeeTrace {
    pub function: FunctionId,
    pub base: u64,
    pub priority: u64,
    pub execution_id: u64,
    pub root: Option<Vec<u8>>,
}

impl FeeTrace {
    /// Binds the fee trace irreversibly to one state root, exactly as a
    /// transfer trace is bound.
    pub fn prepare(&mut self, root: &Vec<u8>) -> (r: Result<(), TransferError>)
        ensures
            final(self).function == old(self).function,
            final(self).base == old(self).base,
            final(self).priority == old(self).priority,
            final(self).execution_id == old(self).execution_id,
            match r {
                Ok(()) => (old(self).root is None || (old(self).root matches Some(r0) && r0@
                    == root@)) && (final(self).root matches Some(r1) && r1@ == root@),
                Err(e) => old(self).root matches Some(r0) && r0@ != root@ && final(self).root
                    == old(self).root && e == TransferError::QueryResolutionFailed,
            },
    {
        match &self.root {
            None => {
                self.root = Some(root.clone());
                Ok(())
            },
            Some(r0) => {
                if bytes_eq(r0, root) {
                    Ok(())
                } else {
                    Err(TransferError::QueryResolutionFailed)
                }
            },
        }
    }
}

/// Executes a consumed fee authorization, producing an unprepared fee
/// trace; the fee function's key pair must be cached.
pub fn execute_fee(registry: &KeyRegistry, authorization: FeeAuthorization) -> (r: Result<
    FeeTrace,
    TransferError,
>)
    ensures
        match r {
            Ok(t) => registry.key_map().dom().contains(authorization.function) && t.function
                == authorization.function && t.base == authorization.base && t.priority
                == authorization.priority && t.execution_id == authorization.execution_id
                && t.root is None,
            Err(e) => !registry.key_map().dom().contains(authorization.function) && e
                == TransferError::MissingKey(authorization.function),
        },
{
    if !registry.contains_key_pair(authorization.function) {
        return Err(TransferError::MissingKey(authorization.function));
    }
    Ok(FeeTrace {
        function: authorization.function,
        base: authorization.base,
        priority: authorization.priority,
        execution_id: authorization.execution_id,
        root: None,
    })
}

/// A proved fee, cryptographically bound to one execution's identifier:
/// it can never pay for an execution other than the one it names.
#[derive(Clone, Debug)]
pub struct Fee {
    pub function: FunctionId,
    pub base: u64,
    pub priority: u64,
    pub bound_execution_id: u64,
    pub state_root: Vec<u8>,
    pub certificate: u64,
}

impl Fee {
    /// The certificate that a sound prover produces for this content.
    pub open spec fn spec_certificate(self) -> u64 {
        spec_fee_digest(
            FEE_CERT_SEED,
            self.function,
            self.base,
            self.priority,
            self.bound_execution_id,
            self.state_root@,
        )
    }

    /// Whether the fee passes verification.
    pub open spec fn spec_verifies(self) -> bool {
        self.certificate == self.spec_certificate()
    }
}

/// Proves a prepared fee trace into a fee. An unprepared trace is a
/// structural error, reported as `ProofGenerationFailed`.
pub fn prove_fee(trace: FeeTrace) -> (r: Result<Fee, TransferError>)
    ensures
        match r {
            Ok(f) => trace.root matches Some(rt) && f.function == trace.function && f.base
                == trace.base && f.priority == trace.priority && f.bound_execution_id
                == trace.execution_id && f.state_root@ == rt@ && f.spec_verifies(),
            Err(err) => trace.root is None && err == TransferError::ProofGenerationFailed,
        },
{
    match trace.root {
        Some(rt) => {
            let d = digest_step_x(FEE_CERT_SEED, fid_code(trace.function));
            let d = digest_step_x(d, trace.base);
            let d = digest_step_x(d, trace.priority);
            let d = digest_step_x(d, trace.execution_id);
            let cert = digest_bytes_x(d, &rt);
            Ok(Fee {
                function: trace.function,
                base: trace.base,
                priority: trace.priority,
                bound_execution_id: trace.execution_id,
                state_root: rt,
                certificate: cert,
            })
        },
        None => Err(TransferError::ProofGenerationFailed),
    }
}

/// A fee is bound to exactly one execution identifier: whatever execution
/// it was authorized against, it can never satisfy the assembly check of
/// an execution with a different identifier.
pub proof fn lemma_fee_not_transferable(f: Fee, paid: Execution, other: Execution)
    requires
        f.bound_execution_id == paid.spec_id(),
        other.spec_id() != paid.spec_id(),
    ensures
        f.bound_execution_id != other.spec_id(),
{
}

/// Verifies an execution against the cached verifying key of its
/// function: absent key, `MissingKey`; certificate not binding the
/// present content, `VerificationFailed`.
pub fn verify_execution(registry: &KeyRegistry, execution: &Execution) -> (r: Result<
    (),
    TransferError,
>)
    ensures
        match r {
            Ok(()) => registry.key_map().dom().contains(execution.function)
                && execution.spec_verifies(),
            Err(e) => (!registry.key_map().dom().contains(execution.function) && e
                == TransferError::MissingKey(execution.function)) || (
            registry.key_map().dom().contains(execution.function) && !execution.spec_verifies()
                && e == TransferError::VerificationFailed),
        },
{
    if !registry.contains_key_pair(execution.function) {
        return Err(TransferError::MissingKey(execution.function));
    }
    let d = digest_step_x(EXECUTION_CERT_SEED, fid_code(execution.function));
    let d = digest_values_x(d, &execution.outputs);
    let cert = digest_bytes_x(d, &execution.state_root);
    if execution.certificate == cert {
        Ok(())
    } else {
        Err(TransferError::VerificationFailed)
    }
}

/// The terminal artifact: a proved execution together with the proved
/// fee bound to it, when a fee is carried.
#[derive(Clone, Debug)]
pub struct Transaction {
    pub execution: Execution,
    pub fee: Option<Fee>,
}

/// Assembles a transaction from a proved execution and its fee, then
/// self-verifies. A fee bound to any other execution's identifier is
/// refused, and a transaction is never returned unless its execution
/// passes verification.
pub fn assemble(registry: &KeyRegistry, execution: Execution, fee: Option<Fee>) -> (r: Result<
    Transaction,
    TransferError,
>)
    ensures
        match r {
            Ok(tx) => tx.execution == execution && tx.fee == fee && (fee matches Some(f)
                ==> f.bound_execution_id == execution.spec_id())
                && registry.key_map().dom().contains(execution.function)
                && execution.spec_verifies(),
            Err(e) => (fee matches Some(f) && f.bound_execution_id != execution.spec_id() && e
                == TransferError::VerificationFailed) || ((fee matches Some(f)
                ==> f.bound_execution_id == execution.spec_id()) && ((!registry.key_map(
            ).dom().contains(execution.function) && e == TransferError::MissingKey(
                execution.function,
            )) || (registry.key_map().dom().contains(execution.function)
                && !execution.spec_verifies() && e == TransferError::VerificationFailed))),
        },
{
    match &fee {
        Some(f) => {
            let id = execution.execution_id();
            if f.bound_execution_id != id {
                return Err(TransferError::VerificationFailed);
            }
        },
        None => {},
    }
    match verify_execution(registry, &execution) {
        Ok(()) => Ok(Transaction { execution, fee }),
        Err(e) => Err(e),
    }
}

/// The outcome of independently re-verifying an assembled transaction:
/// the execution's key must be cached and its certificate must bind its
/// content, and a present fee must verify and be bound to the execution's
/// identifier.
pub open spec fn spec_transaction_check(
    m: Map<FunctionId, KeyPairV>,
    tx: Transaction,
) -> Result<(), TransferError> {
    if !m.dom().contains(tx.execution.function) {
        Err(TransferError::MissingKey(tx.execution.function))
    } else if !tx.execution.spec_verifies() {
        Err(TransferError::VerificationFailed)
    } else {
        match tx.fee {
            Some(f) => if !f.spec_verifies() {
                Err(TransferError::VerificationFailed)
            } else if f.bound_execution_id != tx.execution.spec_id() {
                Err(TransferError::VerificationFailed)
            } else {
                Ok(())
            },
            None => Ok(()),
        }
    }
}

/// Independently re-verifies an assembled transaction: the execution must
/// verify, and a present fee must verify and be bound to the execution's
/// identifier.
pub fn verify_transaction(registry: &KeyRegistry, tx: &Transaction) -> (r: Result<
    (),
    TransferError,
>)
    ensures
        r == spec_transaction_check(registry.key_map(), *tx),
{
    match verify_execution(registry, &tx.execution) {
        Ok(()) => {},
        Err(e) => {
            return Err(e);
        },
    }
    match &tx.fee {
        Some(f) => {
            let d = digest_step_x(FEE_CERT_SEED, fid_code(f.function));
            let d = digest_step_x(d, f.base);
            let d = digest_step_x(d, f.priority);
            let d = digest_step_x(d, f.bound_execution_id);
            let cert = digest_bytes_x(d, &f.state_root);
            if f.certificate != cert {
                return Err(TransferError::VerificationFailed);
            }
            let id = tx.execution.execution_id();
            if f.bound_execution_id != id {
                return Err(TransferError::VerificationFailed);
            }
            Ok(())
        },
        None => Ok(()),
    }
}

} // verus!
