//! What one step hands to the next: a prepared transaction is read back by
//! the signer as it was laid out, and the bytes that the signer wrote are
//! the bytes that the broadcast sends.

use crate::descriptor::{FeeStrategy, SignedTransaction, UnsignedTransaction};
use crate::hexcodec::{hex_bytes, hex_text, is_hex_digit, lemma_hex_round_trip};
use crate::mnemonic::KeyPair;
use crate::prepare::Plan;
use crate::primitives::{
    address_digits, is_address_text, is_blank, is_hex_word_text, keccak256_digest, Address,
};
use crate::sign::{request_of, sign_outcome};
use crate::submission::{raw_digits, transition, BroadcastReply, StageKind, Transition};
use crate::text::without_hex_prefix;
use vstd::prelude::*;

verus! {

/// A text of which every character passes `keep` comes out of the filter as
/// it went in.
pub proof fn lemma_filter_keeps_all(s: Seq<char>, keep: spec_fn(char) -> bool)
    requires
        forall|i: int| 0 <= i < s.len() ==> keep(#[trigger] s[i]),
    ensures
        s.filter(keep) == s,
    decreases s.len(),
{
    reveal(Seq::filter);
    if s.len() > 0 {
        lemma_filter_keeps_all(s.drop_last(), keep);
        assert(s.drop_last().push(s.last()) == s);
    }
}

/// Hexadecimal digits after `0x` are what is left when the `0x` is dropped.
pub proof fn lemma_prefixed_digits(bytes: Seq<u8>)
    ensures
        without_hex_prefix("0x"@ + hex_text(bytes)) == hex_text(bytes),
{
    reveal_strlit("0x");
    let text = "0x"@ + hex_text(bytes);
    assert(text[0] == '0' && text[1] == 'x');
    assert(text.skip(2) == hex_text(bytes));
}

/// An address written as text is read back as the same address.
pub proof fn lemma_address_round_trip(address: Address)
    ensures
        is_address_text(address.text()),
        hex_bytes(address_digits(address.text())) == address.bytes@,
{
    let digits = hex_text(address.bytes@);
    lemma_prefixed_digits(address.bytes@);
    lemma_hex_round_trip(address.bytes@);
    let keep = |c: char| !is_blank(c);
    assert forall|i: int| 0 <= i < digits.len() implies keep(#[trigger] digits[i]) by {
        assert(is_hex_digit(digits[i]));
    }
    lemma_filter_keeps_all(digits, keep);
    assert(address_digits(address.text()) == digits);
}

/// The signer reads a prepared transaction as the preparation laid it out:
/// the same target, the same data, the same fees, the same chain and
/// transaction count. This holds wherever the plan's value is a number in
/// hexadecimal.
pub proof fn lemma_prepared_is_signable(plan: Plan, tx: UnsignedTransaction, chain_id: u64, nonce: u64, fees: FeeStrategy)
    requires
        plan.prepared(tx, chain_id, nonce, fees),
        is_hex_word_text(plan.value@),
    ensures
        request_of(tx) is Ok,
        request_of(tx)->Ok_0.data == plan.payload.data@,
        request_of(tx)->Ok_0.to == match plan.payload.to {
            Some(address) => Some(address.bytes@),
            None => None,
        },
        request_of(tx)->Ok_0.fees == fees,
        request_of(tx)->Ok_0.chain_id == chain_id,
        request_of(tx)->Ok_0.nonce == nonce,
        request_of(tx)->Ok_0.gas_limit == plan.gas_limit,
{
    lemma_hex_round_trip(plan.payload.data@);
    match plan.payload.to {
        Some(address) => {
            lemma_address_round_trip(address);
        },
        None => {},
    }
}

/// The broadcast of a signed transaction, once the chain has reported the id
/// that it was signed for, sends the very bytes that the signer wrote.
pub proof fn lemma_signed_bytes_are_sent(signed: SignedTransaction, raw: Seq<u8>, sender: Seq<u8>, tx: UnsignedTransaction)
    requires
        signed.carries(raw, sender, tx),
    ensures
        transition(signed, StageKind::Verifying, BroadcastReply::ChainId(tx.chain_id)) == Transition::Next(
            StageKind::Submitting,
        ),
        hex_bytes(raw_digits(signed)) == raw,
{
    lemma_prefixed_digits(raw);
    lemma_hex_round_trip(raw);
}

/// The hash of a signed descriptor is the Keccak-256 digest of the bytes
/// that its raw transaction holds.
pub proof fn lemma_hash_is_digest_of_raw(signed: SignedTransaction, raw: Seq<u8>, sender: Seq<u8>, tx: UnsignedTransaction)
    requires
        signed.carries(raw, sender, tx),
    ensures
        signed.transaction_hash@ == "0x"@ + hex_text(keccak256_digest(hex_bytes(raw_digits(signed)))),
{
    lemma_prefixed_digits(raw);
    lemma_hex_round_trip(raw);
}

/// A transaction that is signed with the key of a well-formed key pair names
/// the pair's address as its sender.
pub proof fn lemma_sender_is_the_key_pair(pair: KeyPair, tx: UnsignedTransaction, signed: SignedTransaction)
    requires
        pair.wf(),
        sign_outcome(tx, pair.private_key@) is Ok,
        signed.carries(
            sign_outcome(tx, pair.private_key@)->Ok_0.0,
            sign_outcome(tx, pair.private_key@)->Ok_0.1,
            tx,
        ),
    ensures
        signed.from@ == pair.address.text(),
{
}

} // verus!
