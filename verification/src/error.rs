//! The errors that the registry's operations return.

use cosmwasm_std::StdError;
use vstd::prelude::*;

verus! {

/// `cosmwasm_std::StdError`: the error of the storage layer and of its
/// encoding. The library hands such a value on and never looks inside.
#[verifier::external_type_specification]
#[verifier::external_body]
pub struct ExStdError(StdError);

/// Why an operation was refused.
#[derive(Debug, PartialEq)]
pub enum ContractError {
    /// The storage layer failed, or a value could not be encoded for it.
    Std(StdError),
    /// The sender is not the registry's owner.
    Unauthorized {},
    /// The address already has an identity, where only one is allowed.
    AddressAlreadyLinked {},
    /// The identity already has an address, where only one is allowed.
    SocialAlreadyLinked {},
    /// A strict lookup found no link for the identity.
    SocialInfoNotFound {},
    /// The attached funds are not exactly one positive amount of an
    /// accepted denomination.
    InvalidDenom {},
    /// Reserved: linking the owner's own address.
    CannotSetOwnAccount {},
}

} // verus!
