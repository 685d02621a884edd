//! The remote signer: the types that its answers arrive in, and what the
//! derivation of a foreign address is handed.

use vstd::prelude::*;
use crate::account::AccountId;

verus! {

/// `near_sdk::PublicKey`: a public key as the signer returns it. The
/// library stores it and hands it on, and never looks inside.
#[verifier::external_type_specification]
#[verifier::external_body]
pub struct ExPublicKey(near_sdk::PublicKey);

/// `near_sdk::PromiseError`: why a remote call brought no result.
#[verifier::external_type_specification]
#[verifier::external_body]
pub struct ExPromiseError(near_sdk::PromiseError);

/// What the key derivation needs to compute the foreign address of an
/// account: the signer's public key, the identity of the contract that asks,
/// and the account.
pub struct AddressDerivation<'a> {
    pub public_key: &'a near_sdk::PublicKey,
    pub contract_id: &'a AccountId,
    pub account_id: &'a AccountId,
}

} // verus!
