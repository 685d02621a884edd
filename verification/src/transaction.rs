//! Requests for a transaction on a foreign chain: decoding them from their
//! hexadecimal RLP form and checking that they hold what relaying needs.

use vstd::prelude::*;
use crate::address::ForeignAddress;
use crate::error::{Error, TransactionFault};
use crate::uint::U256;

verus! {

/// What a decoded request stands for.
pub struct TransactionRequestView {
    pub chain_id: Option<u64>,
    pub receiver: Option<Seq<u8>>,
    pub gas: Option<int>,
    pub gas_price: Option<int>,
}

/// A request as it was decoded: each field is there or not.
#[derive(Debug)]
pub struct TransactionRequest {
    pub chain_id: Option<u64>,
    pub receiver: Option<ForeignAddress>,
    pub gas: Option<U256>,
    pub gas_price: Option<U256>,
}

impl View for TransactionRequest {
    type V = TransactionRequestView;

    open spec fn view(&self) -> TransactionRequestView {
        TransactionRequestView {
            chain_id: self.chain_id,
            receiver: match self.receiver {
                Some(address) => Some(address@),
                None => None,
            },
            gas: match self.gas {
                Some(gas) => Some(gas@),
                None => None,
            },
            gas_price: match self.gas_price {
                Some(price) => Some(price@),
                None => None,
            },
        }
    }
}

/// What a valid request stands for.
pub struct ValidTransactionView {
    pub chain_id: u64,
    pub receiver: Seq<u8>,
    pub gas: int,
    pub gas_price: int,
}

/// A request that names its chain, its receiver, its gas limit and its gas
/// price.
#[derive(Clone, Copy, Debug)]
pub struct ValidTransactionRequest {
    pub chain_id: u64,
    pub receiver: ForeignAddress,
    pub gas: U256,
    pub gas_price: U256,
}

impl View for ValidTransactionRequest {
    type V = ValidTransactionView;

    open spec fn view(&self) -> ValidTransactionView {
        ValidTransactionView {
            chain_id: self.chain_id,
            receiver: self.receiver@,
            gas: self.gas@,
            gas_price: self.gas_price@,
        }
    }
}

/// The valid request that a decoded request gives, or the first field that
/// is missing, in the order chain id, receiver, gas limit, gas price.
pub open spec fn validated(request: TransactionRequestView) -> Result<ValidTransactionView, TransactionFault> {
    match (request.chain_id, request.receiver, request.gas, request.gas_price) {
        (None, _, _, _) => Err(TransactionFault::ChainIdMissing),
        (Some(_), None, _, _) => Err(TransactionFault::ReceiverMissing),
        (Some(_), Some(_), None, _) => Err(TransactionFault::GasMissing),
        (Some(_), Some(_), Some(_), None) => Err(TransactionFault::GasPriceMissing),
        (Some(chain_id), Some(receiver), Some(gas), Some(gas_price)) => Ok(
            ValidTransactionView { chain_id, receiver, gas, gas_price },
        ),
    }
}

/// The value of a hexadecimal digit of either case.
pub open spec fn hex_value(digit: char) -> Option<int> {
    if '0' <= digit && digit <= '9' {
        Some(digit as int - '0' as int)
    } else if 'a' <= digit && digit <= 'f' {
        Some(digit as int - 'a' as int + 10)
    } else if 'A' <= digit && digit <= 'F' {
        Some(digit as int - 'A' as int + 10)
    } else {
        None
    }
}

/// The digits of a hexadecimal text: the text without a leading `0x` or
/// `0X`.
pub open spec fn hex_digits(text: Seq<char>) -> Seq<char> {
    if text.len() >= 2 && text[0] == '0' && (text[1] == 'x' || text[1] == 'X') {
        text.subrange(2, text.len() as int)
    } else {
        text
    }
}

/// The bytes that a hexadecimal text stands for: one for each pair of
/// digits. A text of odd length, the prefix counted in, stands for none, nor
/// does a text with a character that is no digit.
pub open spec fn hex_bytes(text: Seq<char>) -> Option<Seq<u8>> {
    let digits = hex_digits(text);
    if text.len() % 2 == 0 && (forall|i: int| 0 <= i < digits.len() ==> hex_value(#[trigger] digits[i]) is Some) {
        Some(
            Seq::new(
                (digits.len() / 2) as nat,
                |i: int| (16 * hex_value(digits[2 * i])->0 + hex_value(digits[2 * i + 1])->0) as u8,
            ),
        )
    } else {
        None
    }
}

/// The request that `rlp::decode` reads from bytes as an
/// `ethers_core::types::transaction::eip2718::TypedTransaction`, where it
/// reads one.
pub uninterp spec fn decoded_request(bytes: Seq<u8>) -> Option<TransactionRequestView>;

/// Whether the first byte announces a string item of more than eight bytes.
/// No transaction starts so, and the decoder must not be given such bytes.
pub open spec fn starts_long_string(bytes: Seq<u8>) -> bool {
    bytes.len() > 0 && 0x89 <= bytes[0] <= 0xbf
}

/// The valid request that a hexadecimal text stands for, or what is wrong
/// with the text.
pub open spec fn parsed_transaction(text: Seq<char>) -> Result<ValidTransactionView, TransactionFault> {
    match hex_bytes(text) {
        Some(bytes) => if starts_long_string(bytes) {
            Err(TransactionFault::Undecodable)
        } else {
            match decoded_request(bytes) {
                Some(request) => validated(request),
                None => Err(TransactionFault::Undecodable),
            }
        },
        None => Err(TransactionFault::NotHexadecimal),
    }
}

/// Calls `hex::decode` as `ethers_core::utils` hands it on (`const_hex`).
/// That function refuses an input of odd length, reads over a leading `0x`
/// or `0X`, and turns each pair of digits of either case into a byte; the
/// contract states that it returns exactly `hex_bytes` of the text.
#[verifier::external_body]
fn decode_hex(text: &str) -> (bytes: Option<Vec<u8>>)
    ensures
        bytes is Some <==> hex_bytes(text@) is Some,
        bytes matches Some(b) ==> hex_bytes(text@) == Some(b@),
{
    match ethers_core::utils::hex::decode(text) {
        Ok(bytes) => Some(bytes),
        Err(_) => None,
    }
}

/// Calls `rlp::decode` for a `TypedTransaction` and reads the chain id, the
/// receiving address, the gas limit and the gas price off the result with
/// the transaction's own accessors. What comes back depends on the bytes
/// alone; the contract names it. The decoder reads the transaction type
/// from a leading string item into 64 bits and panics where that item is
/// longer than eight bytes, so such bytes are left out.
#[verifier::external_body]
fn decode_rlp(bytes: &Vec<u8>) -> (request: Option<TransactionRequest>)
    requires
        !starts_long_string(bytes@),
    ensures
        request is Some <==> decoded_request(bytes@) is Some,
        request matches Some(r) ==> decoded_request(bytes@) == Some(r@),
{
    match ethers_core::utils::rlp::decode::<ethers_core::types::transaction::eip2718::TypedTransaction>(bytes) {
        Ok(tx) => Some(TransactionRequest {
            chain_id: tx.chain_id().map(|id| id.as_u64()),
            receiver: tx.to_addr().map(|address| ForeignAddress(address.0)),
            gas: tx.gas().map(|gas| U256 { limbs: gas.0 }),
            gas_price: tx.gas_price().map(|price| U256 { limbs: price.0 }),
        }),
        Err(_) => None,
    }
}

impl ValidTransactionRequest {
    /// Checks that a decoded request holds every field that relaying needs.
    pub fn validate(request: TransactionRequest) -> (valid: Result<ValidTransactionRequest, Error>)
        ensures
            match validated(request@) {
                Ok(view) => valid matches Ok(v) && v@ == view,
                Err(fault) => valid matches Err(e) && e == Error::InvalidTransaction(fault),
            },
    {
        let chain_id = match request.chain_id {
            Some(chain_id) => chain_id,
            None => {
                return Err(Error::InvalidTransaction(TransactionFault::ChainIdMissing));
            },
        };
        let receiver = match request.receiver {
            Some(receiver) => receiver,
            None => {
                return Err(Error::InvalidTransaction(TransactionFault::ReceiverMissing));
            },
        };
        let gas = match request.gas {
            Some(gas) => gas,
            None => {
                return Err(Error::InvalidTransaction(TransactionFault::GasMissing));
            },
        };
        let gas_price = match request.gas_price {
            Some(gas_price) => gas_price,
            None => {
                return Err(Error::InvalidTransaction(TransactionFault::GasPriceMissing));
            },
        };
        Ok(ValidTransactionRequest { chain_id, receiver, gas, gas_price })
    }
}

/// Decodes a hexadecimal text into a valid request.
pub fn decode_transaction_request(text: &str) -> (request: Result<ValidTransactionRequest, Error>)
    ensures
        match parsed_transaction(text@) {
            Ok(view) => request matches Ok(r) && r@ == view,
            Err(fault) => request matches Err(e) && e == Error::InvalidTransaction(fault),
        },
{
    let bytes = match decode_hex(text) {
        Some(bytes) => bytes,
        None => {
            return Err(Error::InvalidTransaction(TransactionFault::NotHexadecimal));
        },
    };
    if bytes.len() > 0 && 0x89 <= bytes[0] && bytes[0] <= 0xbf {
        return Err(Error::InvalidTransaction(TransactionFault::Undecodable));
    }
    match decode_rlp(&bytes) {
        Some(request) => ValidTransactionRequest::validate(request),
        None => Err(Error::InvalidTransaction(TransactionFault::Undecodable)),
    }
}

} // verus!
