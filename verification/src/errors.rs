//! The pipeline's error taxonomy. Every stage reports its first failure as
//! one of these values; no stage recovers from another stage's failure.

use vstd::prelude::*;
use crate::ids::FunctionId;

verus! {

/// The single discriminated error a transfer call can return.
#[derive(PartialEq, Eq, Structural, Clone, Copy, Debug)]
pub enum TransferError {
    /// A caller-supplied input was malformed or did not match the declared
    /// signature of the requested function.
    InvalidInputs,
    /// No key pair is cached for the named function and none was supplied.
    MissingKey(FunctionId),
    /// A funding record holds fewer microcredits than the requested amount.
    InsufficientFunds,
    /// Executing an authorization violated a program constraint.
    ExecutionFailed,
    /// The state root could not be resolved, or a trace was re-prepared
    /// against a different root.
    QueryResolutionFailed,
    /// A trace was handed to the prover before it was bound to a state root.
    ProofGenerationFailed,
    /// An assembled execution or fee failed self-verification.
    VerificationFailed,
    /// A value could not be decoded from its interchange form.
    SerializationError,
}

} // verus!
