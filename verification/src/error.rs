//! The failures that an operation of the gas station can report.

use vstd::prelude::*;

verus! {

/// Why a text is no valid transaction request.
#[derive(Clone, Copy, Debug, PartialEq, Eq, Structural)]
pub enum TransactionFault {
    /// The text is not hexadecimal.
    NotHexadecimal,
    /// The bytes are not the RLP form of a transaction.
    Undecodable,
    /// The transaction does not name its chain.
    ChainIdMissing,
    /// The transaction has no receiving address.
    ReceiverMissing,
    /// The transaction has no gas limit.
    GasMissing,
    /// The transaction has no gas price.
    GasPriceMissing,
}

/// Why an operation was refused. No operation that returns an error changes
/// the state it was called on.
#[derive(Clone, Copy, Debug, PartialEq, Eq, Structural)]
pub enum Error {
    /// The caller is not the owner, or a continuation was invoked by an
    /// account other than the contract itself.
    PermissionDenied,
    /// A withdrawal was requested without the confirmation stake of exactly
    /// one indivisible unit of the native currency.
    ConfirmationStakeRequired,
    /// The text is not a valid account identifier.
    InvalidAccountId,
    /// No foreign chain is registered under the given chain id.
    ForeignChainNotFound,
    /// The paymaster pool has no entry at the given index.
    PaymasterNotFound,
    /// The fee ledger has no entry for the given asset.
    FeeEntryNotFound,
    /// A paymaster key path reads as a valid account identifier.
    KeyPathIsAccountId,
    /// A fee rate with denominator zero was given.
    ZeroFeeDenominator,
    /// The recorded fee balance is smaller than the amount to withdraw.
    InsufficientFees,
    /// The transaction could not be decoded, or the decoded request lacks a
    /// field that relaying needs: the fault says which.
    InvalidTransaction(TransactionFault),
    /// The price data does not quote a usable price for a needed asset.
    PriceUnavailable,
    /// A quantity does not fit the width that holds it.
    ArithmeticOverflow,
    /// No public key of the signer is cached for the current signer identity.
    SignerKeyUnavailable,
    /// The request for the signer's public key did not complete.
    RemoteCallFailed,
}

/// The four classes into which the failures fall.
#[derive(Clone, Copy, Debug, PartialEq, Eq, Structural)]
pub enum ErrorClass {
    PermissionDenied,
    NotFound,
    ValidationFailed,
    RemoteCallFailed,
}

impl Error {
    /// The class of a failure, as a specification.
    pub open spec fn class_of(self) -> ErrorClass {
        match self {
            Error::PermissionDenied | Error::ConfirmationStakeRequired => ErrorClass::PermissionDenied,
            Error::ForeignChainNotFound | Error::PaymasterNotFound | Error::FeeEntryNotFound
            | Error::SignerKeyUnavailable => ErrorClass::NotFound,
            Error::RemoteCallFailed => ErrorClass::RemoteCallFailed,
            _ => ErrorClass::ValidationFailed,
        }
    }

    /// The class of this failure.
    pub fn class(&self) -> (class: ErrorClass)
        ensures
            class == self.class_of(),
    {
        match self {
            Error::PermissionDenied | Error::ConfirmationStakeRequired => ErrorClass::PermissionDenied,
            Error::ForeignChainNotFound | Error::PaymasterNotFound | Error::FeeEntryNotFound
            | Error::SignerKeyUnavailable => ErrorClass::NotFound,
            Error::RemoteCallFailed => ErrorClass::RemoteCallFailed,
            _ => ErrorClass::ValidationFailed,
        }
    }
}

} // verus!
