//! Function identifiers of the credits program, and the rules that select
//! them: the transfer function is chosen by the visibility mode, the fee
//! function by whether a fee-funding record is supplied.

use vstd::prelude::*;

verus! {

/// Visibility mode of a transfer.
#[derive(PartialEq, Eq, Structural, Clone, Copy, Debug)]
pub enum Visibility {
    Private,
    Public,
    PrivateToPublic,
    PublicToPrivate,
}

/// Identifier of one function of the credits program. A key pair is cached
/// per identifier, and every authorization names exactly one identifier.
#[derive(PartialEq, Eq, Structural, Clone, Copy, Debug)]
pub enum FunctionId {
    TransferPrivate,
    TransferPublic,
    TransferPrivateToPublic,
    TransferPublicToPrivate,
    FeePublic,
    FeePrivate,
}

/// The transfer function selected by a visibility mode.
pub open spec fn spec_transfer_function(v: Visibility) -> FunctionId {
    match v {
        Visibility::Private => FunctionId::TransferPrivate,
        Visibility::Public => FunctionId::TransferPublic,
        Visibility::PrivateToPublic => FunctionId::TransferPrivateToPublic,
        Visibility::PublicToPrivate => FunctionId::TransferPublicToPrivate,
    }
}

/// Selects the transfer function for a visibility mode.
pub fn transfer_function(v: Visibility) -> (r: FunctionId)
    ensures
        r == spec_transfer_function(v),
{
    match v {
        Visibility::Private => FunctionId::TransferPrivate,
        Visibility::Public => FunctionId::TransferPublic,
        Visibility::PrivateToPublic => FunctionId::TransferPrivateToPublic,
        Visibility::PublicToPrivate => FunctionId::TransferPublicToPrivate,
    }
}

/// The fee function is the private one iff a fee-funding record is supplied.
pub open spec fn spec_fee_function(has_fee_record: bool) -> FunctionId {
    if has_fee_record {
        FunctionId::FeePrivate
    } else {
        FunctionId::FeePublic
    }
}

/// Selects the fee function: private fee iff a fee-funding record is supplied.
pub fn fee_function(has_fee_record: bool) -> (r: FunctionId)
    ensures
        r == spec_fee_function(has_fee_record),
{
    if has_fee_record {
        FunctionId::FeePrivate
    } else {
        FunctionId::FeePublic
    }
}

} // verus!
