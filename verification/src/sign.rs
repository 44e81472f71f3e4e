//! Signing a prepared transaction with a private key. Nothing here reaches
//! the network.

use crate::descriptor::{FeeStrategy, SignedTransaction, UnsignedTransaction};
use crate::hexcodec::{decode, encode, hex_bytes, hex_text, hex_value, is_hex_text};
use crate::primitives::{
    address_digits, is_address_text, is_hex_word_text, keccak256, keccak256_digest, parse_address,
    parse_hex_word, Address, Word256,
};
use crate::text::{join_text, without_hex_prefix};
use ethers::signers::{LocalWallet, Signer};
use ethers::types::transaction::eip2718::TypedTransaction;
use ethers::types::{Eip1559TransactionRequest, TransactionRequest, H160, U256};
use vstd::prelude::*;
use vstd::string::StringExecFns;

verus! {

/// The greatest chain id that a signature can bind a transaction to: the
/// signature's recovery value holds twice the chain id and 36 in 64 bits.
pub const MAX_CHAIN_ID: u64 = 9223372036854775789;

/// Why a transaction was not signed.
#[derive(Debug, Clone, Copy, PartialEq, Eq)]
pub enum SignError {
    /// The key is no private key.
    InvalidKey,
    /// The fee fields name no way to pay, or more than one.
    InvalidFees,
    /// The target is no address.
    InvalidRecipient,
    /// The data is not written in hexadecimal.
    InvalidData,
    /// The value is no 256-bit number in hexadecimal.
    InvalidValue,
    /// The chain id is greater than a signature can hold.
    ChainIdTooLarge,
    /// The signer refused the transaction.
    SigningFailed,
}

/// A transaction as it is signed: the fields of the descriptor, read.
#[derive(Debug, Clone, PartialEq, Eq)]
pub struct TxRequest {
    pub chain_id: u64,
    pub nonce: u64,
    pub gas_limit: u64,
    pub fees: FeeStrategy,
    pub to: Option<Address>,
    pub data: Vec<u8>,
    pub value: Word256,
}

/// What a [`TxRequest`] stands for.
pub struct TxModel {
    pub chain_id: u64,
    pub nonce: u64,
    pub gas_limit: u64,
    pub fees: FeeStrategy,
    pub to: Option<Seq<u8>>,
    pub data: Seq<u8>,
    pub value: nat,
}

impl View for TxRequest {
    type V = TxModel;

    open spec fn view(&self) -> TxModel {
        TxModel {
            chain_id: self.chain_id,
            nonce: self.nonce,
            gas_limit: self.gas_limit,
            fees: self.fees,
            to: match self.to {
                Some(address) => Some(address.bytes@),
                None => None,
            },
            data: self.data@,
            value: self.value.value(),
        }
    }
}

/// The transaction that a descriptor describes, or the reason why it
/// describes none. The descriptor must name exactly one way to pay; its
/// target, if it has one, must be an address; its data and its value must be
/// written in hexadecimal. The reasons are looked for in this order: the
/// fees, the target, the data, the value.
pub open spec fn request_of(tx: UnsignedTransaction) -> Result<TxModel, SignError> {
    if tx.fees() is None {
        Err(SignError::InvalidFees)
    } else if tx.to is Some && !is_address_text(tx.to->0@) {
        Err(SignError::InvalidRecipient)
    } else if !is_hex_text(tx.data@) {
        Err(SignError::InvalidData)
    } else if !is_hex_word_text(tx.value@) {
        Err(SignError::InvalidValue)
    } else {
        Ok(
            TxModel {
                chain_id: tx.chain_id,
                nonce: tx.nonce,
                gas_limit: tx.gas_limit,
                fees: tx.fees()->0,
                to: match tx.to {
                    Some(text) => Some(hex_bytes(address_digits(text@))),
                    None => None,
                },
                data: hex_bytes(tx.data@),
                value: hex_value(without_hex_prefix(tx.value@)),
            },
        )
    }
}

/// Reads the fields of a descriptor.
pub fn build_request(tx: &UnsignedTransaction) -> (r: Result<TxRequest, SignError>)
    ensures
        match request_of(*tx) {
            Ok(model) => r matches Ok(request) && request@ == model,
            Err(e) => r == Err::<TxRequest, SignError>(e),
        },
{
    let fees = match tx.fee_strategy() {
        Some(fees) => fees,
        None => {
            return Err(SignError::InvalidFees);
        },
    };
    let to = match &tx.to {
        Some(text) => match parse_address(text.as_str()) {
            Some(address) => Some(address),
            None => {
                return Err(SignError::InvalidRecipient);
            },
        },
        None => None,
    };
    let data = match decode(tx.data.as_str()) {
        Some(data) => data,
        None => {
            return Err(SignError::InvalidData);
        },
    };
    let value = match parse_hex_word(tx.value.as_str()) {
        Some(value) => value,
        None => {
            return Err(SignError::InvalidValue);
        },
    };
    Ok(TxRequest { chain_id: tx.chain_id, nonce: tx.nonce, gas_limit: tx.gas_limit, fees, to, data, value })
}

/// The address of the account that the private key `key` controls, where
/// `key` is a private key.
pub uninterp spec fn key_address(key: Seq<u8>) -> Option<Seq<u8>>;

/// The signed transaction in bytes, as the chain takes it: the transaction
/// `tx` with the signature of `key` over it, bound to the chain id of `tx`.
pub uninterp spec fn signed_bytes(key: Seq<u8>, tx: TxModel) -> Option<Seq<u8>>;

/// Trusted: `LocalWallet::from_bytes` of `ethers` and the wallet's `address`.
/// The address depends on the key alone; a key that is no scalar of the
/// curve has none.
#[verifier::external_body]
pub(crate) fn address_of_key(key: &[u8; 32]) -> (r: Option<Address>)
    ensures
        r is Some <==> key_address(key@) is Some,
        r matches Some(address) ==> Some(address.bytes@) == key_address(key@),
{
    LocalWallet::from_bytes(key).ok().map(|wallet| Address { bytes: wallet.address().0 })
}

/// Trusted: `Wallet::sign_transaction_sync` and `TypedTransaction::rlp_signed`
/// of `ethers`, on a transaction that pays a gas price. The signature is
/// deterministic, so the bytes depend on the key and the transaction alone.
/// The chain id is bounded because the recovery value is computed in 64 bits.
#[verifier::external_body]
pub(crate) fn sign_legacy(key: &[u8; 32], tx: &TxRequest, gas_price: u64) -> (r: Option<Vec<u8>>)
    requires
        tx.chain_id <= MAX_CHAIN_ID,
        tx.fees == (FeeStrategy::Legacy { gas_price }),
    ensures
        r is Some <==> signed_bytes(key@, tx@) is Some,
        r matches Some(raw) ==> Some(raw@) == signed_bytes(key@, tx@),
{
    let wallet = LocalWallet::from_bytes(key).ok()?;
    let mut request = TransactionRequest::new().from(wallet.address()).chain_id(tx.chain_id);
    request = request.nonce(tx.nonce).gas(tx.gas_limit).gas_price(gas_price);
    request = request.data(tx.data.clone()).value(U256(tx.value.limbs));
    request.to = tx.to.map(|a| H160(a.bytes).into());
    let typed = TypedTransaction::Legacy(request);
    let signature = wallet.sign_transaction_sync(&typed).ok()?;
    Some(typed.rlp_signed(&signature).to_vec())
}

/// Trusted: `Wallet::sign_transaction_sync` and `TypedTransaction::rlp_signed`
/// of `ethers`, on a transaction that pays a base fee and a priority fee.
/// The signature is deterministic, so the bytes depend on the key and the
/// transaction alone. The chain id is bounded because the recovery value is
/// computed in 64 bits.
#[verifier::external_body]
pub(crate) fn sign_dynamic(
    key: &[u8; 32],
    tx: &TxRequest,
    max_fee: u64,
    max_priority_fee: u64,
) -> (r: Option<Vec<u8>>)
    requires
        tx.chain_id <= MAX_CHAIN_ID,
        tx.fees == (FeeStrategy::Dynamic {
            max_fee_per_gas: max_fee,
            max_priority_fee_per_gas: max_priority_fee,
        }),
    ensures
        r is Some <==> signed_bytes(key@, tx@) is Some,
        r matches Some(raw) ==> Some(raw@) == signed_bytes(key@, tx@),
{
    let wallet = LocalWallet::from_bytes(key).ok()?;
    let mut request = Eip1559TransactionRequest::new().from(wallet.address()).chain_id(tx.chain_id);
    request = request.nonce(tx.nonce).gas(tx.gas_limit).max_fee_per_gas(max_fee);
    request = request.max_priority_fee_per_gas(max_priority_fee);
    request = request.data(tx.data.clone()).value(U256(tx.value.limbs));
    request.to = tx.to.map(|a| H160(a.bytes).into());
    let typed = TypedTransaction::Eip1559(request);
    let signature = wallet.sign_transaction_sync(&typed).ok()?;
    Some(typed.rlp_signed(&signature).to_vec())
}

impl SignedTransaction {
    /// Whether this is the descriptor of the signed bytes `raw` of the
    /// transaction `tx`, signed by the account at `sender`: the bytes and
    /// their Keccak-256 digest in hexadecimal, the sender's address, and the
    /// target, the transaction count, the chain id and the endpoint of `tx`.
    pub open spec fn carries(self, raw: Seq<u8>, sender: Seq<u8>, tx: UnsignedTransaction) -> bool {
        &&& self.raw_transaction@ == "0x"@ + hex_text(raw)
        &&& self.transaction_hash@ == "0x"@ + hex_text(keccak256_digest(raw))
        &&& self.from@ == "0x"@ + hex_text(sender)
        &&& self.to == tx.to
        &&& self.nonce == tx.nonce
        &&& self.chain_id == tx.chain_id
        &&& self.rpc_url == tx.rpc_url
    }
}

/// What signing `tx` with `key` gives: the signed bytes and the signer's
/// address, or the reason why there are none. The reasons are looked for in
/// this order: the key, the descriptor's fields, the chain id, the signer.
pub open spec fn sign_outcome(tx: UnsignedTransaction, key: Seq<u8>) -> Result<(Seq<u8>, Seq<u8>), SignError> {
    if key_address(key) is None {
        Err(SignError::InvalidKey)
    } else {
        match request_of(tx) {
            Err(e) => Err(e),
            Ok(model) => if tx.chain_id > MAX_CHAIN_ID {
                Err(SignError::ChainIdTooLarge)
            } else {
                match signed_bytes(key, model) {
                    Some(raw) => Ok((raw, key_address(key)->0)),
                    None => Err(SignError::SigningFailed),
                }
            },
        }
    }
}

/// Signs the transaction that `tx` describes with the private key `key`.
pub fn sign(tx: &UnsignedTransaction, key: &[u8; 32]) -> (r: Result<SignedTransaction, SignError>)
    ensures
        match sign_outcome(*tx, key@) {
            Ok((raw, sender)) => r matches Ok(signed) && signed.carries(raw, sender, *tx),
            Err(e) => r == Err::<SignedTransaction, SignError>(e),
        },
{
    let sender = match address_of_key(key) {
        Some(sender) => sender,
        None => {
            return Err(SignError::InvalidKey);
        },
    };
    let request = match build_request(tx) {
        Ok(request) => request,
        Err(e) => {
            return Err(e);
        },
    };
    if request.chain_id > MAX_CHAIN_ID {
        return Err(SignError::ChainIdTooLarge);
    }
    let signed = match request.fees {
        FeeStrategy::Legacy { gas_price } => sign_legacy(key, &request, gas_price),
        FeeStrategy::Dynamic { max_fee_per_gas, max_priority_fee_per_gas } => sign_dynamic(
            key,
            &request,
            max_fee_per_gas,
            max_priority_fee_per_gas,
        ),
    };
    match signed {
        Some(raw) => Ok(describe_signed(&raw, &sender, tx)),
        None => Err(SignError::SigningFailed),
    }
}

/// The descriptor of the signed bytes `raw` of the transaction `tx`, signed
/// by the account at `sender`.
pub fn describe_signed(raw: &Vec<u8>, sender: &Address, tx: &UnsignedTransaction) -> (r: SignedTransaction)
    ensures
        r.carries(raw@, sender.bytes@, *tx),
{
    let digest = keccak256(raw.as_slice());
    let to = match &tx.to {
        Some(text) => Some(text.clone()),
        None => None,
    };
    SignedTransaction {
        raw_transaction: join_text("0x", encode(raw.as_slice()).as_str()),
        transaction_hash: join_text("0x", encode(digest.as_slice()).as_str()),
        from: sender.to_text(),
        to,
        nonce: tx.nonce,
        chain_id: tx.chain_id,
        rpc_url: tx.rpc_url.clone(),
    }
}

impl SignError {
    /// The text of [`SignError::message`].
    pub open spec fn message_text(self) -> Seq<char> {
        match self {
            SignError::InvalidKey => "Invalid private key"@,
            SignError::InvalidFees => "Transaction must name either a gas price or both EIP-1559 fees"@,
            SignError::InvalidRecipient => "Invalid to address"@,
            SignError::InvalidData => "Failed to decode transaction data"@,
            SignError::InvalidValue => "Failed to parse value"@,
            SignError::ChainIdTooLarge => "Chain ID is too large to sign for"@,
            SignError::SigningFailed => "Failed to sign transaction"@,
        }
    }

    /// What went wrong, in words.
    pub fn message(&self) -> (r: String)
        ensures
            r@ == self.message_text(),
    {
        match self {
            SignError::InvalidKey => String::from_str("Invalid private key"),
            SignError::InvalidFees => String::from_str(
                "Transaction must name either a gas price or both EIP-1559 fees",
            ),
            SignError::InvalidRecipient => String::from_str("Invalid to address"),
            SignError::InvalidData => String::from_str("Failed to decode transaction data"),
            SignError::InvalidValue => String::from_str("Failed to parse value"),
            SignError::ChainIdTooLarge => String::from_str("Chain ID is too large to sign for"),
            SignError::SigningFailed => String::from_str("Failed to sign transaction"),
        }
    }
}

} // verus!
