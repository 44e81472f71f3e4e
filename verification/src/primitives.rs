//! The two fixed-size values of a transaction, an account's address and a
//! 256-bit number, with the calls into `ethers` that read them from text and
//! the Keccak-256 digest.

use crate::hexcodec::{encode, hex_bytes, hex_text, hex_value, is_hex_digit};
use crate::text::{decimal_value, is_decimal_text, join_text, without_hex_prefix};
use ethers::types::{H160, U256};
use std::str::FromStr;
use vstd::prelude::*;

verus! {

/// An account's address: twenty bytes.
#[derive(Debug, Clone, Copy, PartialEq, Eq)]
pub struct Address {
    pub bytes: [u8; 20],
}

/// An unsigned number below two to the power 256, in four limbs of 64 bits,
/// the least significant first.
#[derive(Debug, Clone, Copy, PartialEq, Eq)]
pub struct Word256 {
    pub limbs: [u64; 4],
}

/// Two to the power 64.
pub open spec fn limb_base() -> nat {
    0x1_0000_0000_0000_0000
}

/// Two to the power 256: the first number that a [`Word256`] cannot hold.
pub open spec fn word_limit() -> nat {
    limb_base() * limb_base() * limb_base() * limb_base()
}

impl Word256 {
    /// The number that the four limbs stand for.
    pub open spec fn value(self) -> nat {
        self.limbs[0] as nat + limb_base() * (self.limbs[1] as nat + limb_base() * (self.limbs[2] as nat
            + limb_base() * (self.limbs[3] as nat)))
    }
}

impl Address {
    /// The address in text: `0x` and forty lower-case hexadecimal digits.
    pub open spec fn text(self) -> Seq<char> {
        "0x"@ + hex_text(self.bytes@)
    }

    /// Writes the address as `0x` and forty lower-case hexadecimal digits.
    pub fn to_text(&self) -> (r: String)
        ensures
            r@ == self.text(),
    {
        let digits = encode(self.bytes.as_slice());
        join_text("0x", digits.as_str())
    }
}

/// The bytes of `head` followed by those of `tail`.
pub fn join_bytes(head: &[u8], tail: &[u8]) -> (r: Vec<u8>)
    ensures
        r@ == head@ + tail@,
{
    let mut out: Vec<u8> = Vec::new();
    let mut i: usize = 0;
    while i < head.len()
        invariant
            i <= head.len(),
            out@ == head@.take(i as int),
        decreases head.len() - i,
    {
        out.push(head[i]);
        proof {
            assert(head@.take(i + 1) == head@.take(i as int).push(head@[i as int]));
        }
        i = i + 1;
    }
    proof {
        assert(head@.take(head.len() as int) == head@);
    }
    let mut j: usize = 0;
    while j < tail.len()
        invariant
            j <= tail.len(),
            out@ == head@ + tail@.take(j as int),
        decreases tail.len() - j,
    {
        out.push(tail[j]);
        proof {
            assert(tail@.take(j + 1) == tail@.take(j as int).push(tail@[j as int]));
            assert(head@ + tail@.take(j + 1) == (head@ + tail@.take(j as int)).push(tail@[j as int]));
        }
        j = j + 1;
    }
    proof {
        assert(tail@.take(tail.len() as int) == tail@);
    }
    out
}

/// Whether `c` is a blank that may stand anywhere in an address's text.
pub open spec fn is_blank(c: char) -> bool {
    c == ' ' || c == '\r' || c == '\n' || c == '\t'
}

/// The digits of an address's text: what is left of `s` without a leading
/// `0x` and without blanks.
pub open spec fn address_digits(s: Seq<char>) -> Seq<char> {
    without_hex_prefix(s).filter(|c: char| !is_blank(c))
}

/// Whether `s` is the text of an address: forty hexadecimal digits, in either
/// case, after an optional `0x`, blanks not counted.
pub open spec fn is_address_text(s: Seq<char>) -> bool {
    &&& address_digits(s).len() == 40
    &&& forall|i: int| 0 <= i < 40 ==> is_hex_digit(#[trigger] address_digits(s)[i])
}

/// Whether `s` is a 256-bit number in decimal: decimal digits that write a
/// number below two to the power 256.
pub open spec fn is_decimal_word_text(s: Seq<char>) -> bool {
    is_decimal_text(s) && decimal_value(s) < word_limit()
}

/// Whether `s` is a 256-bit number in hexadecimal: at most 64 hexadecimal
/// digits, in either case, after an optional `0x`.
pub open spec fn is_hex_word_text(s: Seq<char>) -> bool {
    &&& without_hex_prefix(s).len() <= 64
    &&& forall|i: int| 0 <= i < without_hex_prefix(s).len() ==> is_hex_digit(#[trigger] without_hex_prefix(s)[i])
}

/// The Keccak-256 digest of `bytes`: thirty-two bytes.
pub uninterp spec fn keccak256_digest(bytes: Seq<u8>) -> Seq<u8>;

/// Trusted: `H160::from_str` of `ethers`, which drops a leading `0x`, skips
/// blanks, and accepts exactly forty hexadecimal digits, of which each pair
/// gives one byte.
#[verifier::external_body]
pub(crate) fn parse_address(s: &str) -> (r: Option<Address>)
    ensures
        r is Some <==> is_address_text(s@),
        r matches Some(a) ==> a.bytes@ == hex_bytes(address_digits(s@)),
{
    H160::from_str(s).ok().map(|h| Address { bytes: h.0 })
}

/// Trusted: `U256::from_dec_str` of `ethers`, which accepts decimal digits
/// that write a number below two to the power 256, and gives that number.
#[verifier::external_body]
pub(crate) fn parse_decimal_word(s: &str) -> (r: Option<Word256>)
    ensures
        r is Some <==> is_decimal_word_text(s@),
        r matches Some(w) ==> w.value() == decimal_value(s@),
{
    U256::from_dec_str(s).ok().map(|u| Word256 { limbs: u.0 })
}

/// Trusted: `U256::from_str` of `ethers`, which drops a leading `0x`, accepts
/// up to 64 hexadecimal digits, and gives the number they write.
#[verifier::external_body]
pub(crate) fn parse_hex_word(s: &str) -> (r: Option<Word256>)
    ensures
        r is Some <==> is_hex_word_text(s@),
        r matches Some(w) ==> w.value() == hex_value(without_hex_prefix(s@)),
{
    U256::from_str(s).ok().map(|u| Word256 { limbs: u.0 })
}

/// Trusted: `ethers::utils::keccak256`, the Keccak-256 digest of the bytes.
#[verifier::external_body]
pub(crate) fn keccak256(bytes: &[u8]) -> (r: [u8; 32])
    ensures
        r@ == keccak256_digest(bytes@),
{
    ethers::utils::keccak256(bytes)
}

} // verus!
