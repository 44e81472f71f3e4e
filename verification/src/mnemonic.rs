//! Recovery phrases: making one, checking one, and deriving the key pair
//! that one stands for.

use crate::primitives::Address;
use crate::sign::key_address;
use crate::text::{
    count_words, decimal, decimal_text, join_text, lemma_trimmed_keeps_words, trim, trimmed,
    word_count,
};
use ethers::signers::coins_bip39::{English, Mnemonic};
use ethers::signers::{MnemonicBuilder, Signer};
use ethers::types::PathOrString;
use vstd::prelude::*;
use vstd::string::StringExecFns;

verus! {

/// The derivation path of the one key that a phrase stands for: purpose 44,
/// coin type 60, account 0, external chain, address index 0.
pub const DEFAULT_ETH_DERIVATION_PATH: &'static str = "m/44'/60'/0'/0/0";

/// The number of words of a recovery phrase.
pub const MNEMONIC_WORDS: usize = 24;

/// A private key and the address of the account that it controls.
#[derive(Debug, Clone, Copy, PartialEq, Eq)]
pub struct KeyPair {
    pub private_key: [u8; 32],
    pub address: Address,
}

impl KeyPair {
    /// A key pair is well formed when its address is the one of the account
    /// that its private key controls.
    pub open spec fn wf(self) -> bool {
        key_address(self.private_key@) == Some(self.address.bytes@)
    }
}

/// Why a phrase gave no key pair, or why there is no phrase.
#[derive(Debug, Clone, Copy, PartialEq, Eq)]
pub enum MnemonicError {
    /// The phrase has another number of words than 24; holds that number.
    InvalidMnemonic { words: usize },
    /// No phrase could be made.
    GenerationFailed,
    /// The phrase stands for no key.
    DerivationFailed,
}

/// Checks a recovery phrase by the number of its words, which must be 24.
/// What the words are is not looked at.
pub fn validate_mnemonic(phrase: &str) -> (r: Result<(), MnemonicError>)
    ensures
        word_count(phrase@) == 24 ==> r is Ok,
        word_count(phrase@) != 24 ==> r == Err::<(), MnemonicError>(
            MnemonicError::InvalidMnemonic { words: word_count(phrase@) as usize },
        ),
{
    let words = count_words(phrase);
    if words == MNEMONIC_WORDS {
        Ok(())
    } else {
        Err(MnemonicError::InvalidMnemonic { words })
    }
}

/// Whether a recovery phrase can have `words` words: 12, 15, 18, 21 or 24.
pub open spec fn is_phrase_length(words: usize) -> bool {
    words == 12 || words == 15 || words == 18 || words == 21 || words == 24
}

/// Trusted: `Mnemonic::new_with_count` and `Mnemonic::to_phrase` of
/// `coins_bip39`, as `ethers` hands it on, with the random numbers of
/// `rand::thread_rng`. A phrase is made for each of the five lengths and for
/// no other; it holds that many words of the English list, which are runs of
/// the letters `a` to `z`, with one space between two of them. Which words
/// they are differs each time, so nothing is said of that.
#[verifier::external_body]
pub(crate) fn random_phrase(words: usize) -> (r: Option<String>)
    ensures
        r is Some <==> is_phrase_length(words),
        r matches Some(phrase) ==> word_count(phrase@) == words,
{
    let mnemonic = Mnemonic::<English>::new_with_count(&mut rand::thread_rng(), words).ok()?;
    Some(mnemonic.to_phrase())
}

/// Takes a phrase that was made at random: it is handed on where it has 24
/// words.
pub fn accept_generated(made: Option<String>) -> (r: Result<String, MnemonicError>)
    ensures
        match made {
            Some(phrase) => if word_count(phrase@) == 24 {
                r == Ok::<String, MnemonicError>(phrase)
            } else {
                r == Err::<String, MnemonicError>(
                    MnemonicError::InvalidMnemonic { words: word_count(phrase@) as usize },
                )
            },
            None => r == Err::<String, MnemonicError>(MnemonicError::GenerationFailed),
        },
{
    match made {
        Some(phrase) => match validate_mnemonic(phrase.as_str()) {
            Ok(()) => Ok(phrase),
            Err(e) => Err(e),
        },
        None => Err(MnemonicError::GenerationFailed),
    }
}

/// Makes a recovery phrase of 24 words at random. It always makes one.
pub fn generate_mnemonic() -> (r: Result<String, MnemonicError>)
    ensures
        r matches Ok(phrase) && word_count(phrase@) == 24,
{
    accept_generated(random_phrase(MNEMONIC_WORDS))
}

/// The private key and the address that the phrase `phrase` gives at the
/// derivation path `path`, where it gives any.
pub uninterp spec fn derived_key(phrase: Seq<char>, path: Seq<char>) -> Option<(Seq<u8>, Seq<u8>)>;

/// Trusted: `MnemonicBuilder::build` of `ethers` on a phrase given as text
/// and a derivation path, then the wallet's key and address. The phrase is
/// handed over as text, never as the name of a file, so the key pair depends
/// on the phrase and the path alone. The address is the one of the key. The
/// path is the one default path: the outside parser adds to an index that a
/// path marks as hardened without looking whether the sum fits.
#[verifier::external_body]
pub(crate) fn derive_wallet(phrase: &str, path: &str) -> (r: Option<KeyPair>)
    requires
        path@ == DEFAULT_ETH_DERIVATION_PATH@,
    ensures
        r is Some <==> derived_key(phrase@, path@) is Some,
        r matches Some(pair) ==> Some((pair.private_key@, pair.address.bytes@)) == derived_key(
            phrase@,
            path@,
        ),
        r matches Some(pair) ==> pair.wf(),
{
    let phrase = PathOrString::String(phrase.to_owned());
    let builder = MnemonicBuilder::<English>::default().phrase(phrase).derivation_path(path).ok()?;
    let wallet = builder.build().ok()?;
    let address = Address { bytes: wallet.address().0 };
    Some(KeyPair { private_key: wallet.signer().to_bytes().into(), address })
}

/// What deriving from `phrase` gives: where the phrase has 24 words, the key
/// and the address that the phrase without the whitespace at its ends
/// stands for at the one derivation path, if it stands for any.
pub open spec fn derivation(phrase: Seq<char>) -> Result<(Seq<u8>, Seq<u8>), MnemonicError> {
    let words = word_count(phrase);
    if words != 24 {
        Err(MnemonicError::InvalidMnemonic { words: words as usize })
    } else {
        match derived_key(trimmed(phrase), DEFAULT_ETH_DERIVATION_PATH@) {
            Some(pair) => Ok(pair),
            None => Err(MnemonicError::DerivationFailed),
        }
    }
}

/// Derives the key pair of a recovery phrase. The phrase is trimmed, then
/// checked, then taken down the one derivation path.
pub fn derive_key(phrase: &str) -> (r: Result<KeyPair, MnemonicError>)
    ensures
        match derivation(phrase@) {
            Ok((key, address)) => r matches Ok(pair) && pair.private_key@ == key && pair.address.bytes@
                == address && pair.wf(),
            Err(e) => r == Err::<KeyPair, MnemonicError>(e),
        },
{
    proof {
        lemma_trimmed_keeps_words(phrase@);
    }
    let phrase = trim(phrase);
    match validate_mnemonic(phrase) {
        Ok(()) => {},
        Err(e) => {
            return Err(e);
        },
    }
    match derive_wallet(phrase, DEFAULT_ETH_DERIVATION_PATH) {
        Some(pair) => Ok(pair),
        None => Err(MnemonicError::DerivationFailed),
    }
}

/// Deriving twice from one phrase gives one key pair: the same private key
/// and the same address.
pub proof fn lemma_derivation_is_deterministic(phrase: Seq<char>, first: KeyPair, second: KeyPair)
    requires
        derivation(phrase) == Ok::<(Seq<u8>, Seq<u8>), MnemonicError>((first.private_key@, first.address.bytes@)),
        derivation(phrase) == Ok::<(Seq<u8>, Seq<u8>), MnemonicError>((second.private_key@, second.address.bytes@)),
    ensures
        first.private_key@ == second.private_key@,
        first.address.bytes@ == second.address.bytes@,
{
}

/// A phrase with another number of words than 24 is refused by its number
/// of words, and no other phrase is.
pub proof fn lemma_validation_counts_words(phrase: Seq<char>)
    ensures
        word_count(phrase) != 24 <==> derivation(phrase) is Err && derivation(phrase)->Err_0 is InvalidMnemonic,
{
}

impl MnemonicError {
    /// The text of [`MnemonicError::message`].
    pub open spec fn message_text(self) -> Seq<char> {
        match self {
            MnemonicError::InvalidMnemonic { words } => "Invalid mnemonic: expected 24 words, got "@
                + decimal_text(words as nat) + ". Please check your mnemonic phrase."@,
            MnemonicError::GenerationFailed => "Failed to generate a mnemonic"@,
            MnemonicError::DerivationFailed => "Failed to derive wallet from mnemonic. Check that the mnemonic is valid."@,
        }
    }

    /// What went wrong, in words.
    pub fn message(&self) -> (r: String)
        ensures
            r@ == self.message_text(),
    {
        match self {
            MnemonicError::InvalidMnemonic { words } => join_text(
                "Invalid mnemonic: expected 24 words, got ",
                decimal(*words as u64).as_str(),
            ).concat(". Please check your mnemonic phrase."),
            MnemonicError::GenerationFailed => String::from_str("Failed to generate a mnemonic"),
            MnemonicError::DerivationFailed => String::from_str(
                "Failed to derive wallet from mnemonic. Check that the mnemonic is valid.",
            ),
        }
    }
}

} // verus!
