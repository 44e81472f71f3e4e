//! Keeping a private key: under a password in a keystore file, or, where
//! that is asked for outright, as plain text.

use crate::hexcodec::{encode, hex_text};
use crate::mnemonic::KeyPair;
use crate::primitives::Address;
use crate::text::{join_text, same_text};
use vstd::prelude::*;
use vstd::string::StringExecFns;

verus! {

/// The least number of bytes of a keystore's password.
pub const MIN_PASSWORD_LENGTH: usize = 8;

/// What whoever asks for a key in plain text is to be told.
pub const PLAIN_TEXT_WARNING: &'static str = "WARNING: Private key saved in PLAIN TEXT! Anyone with this file can access your funds!";

/// Why a key was not stored, or not read back.
#[derive(Debug, Clone, Copy, PartialEq, Eq)]
pub enum KeystoreError {
    /// The password has fewer than 8 bytes.
    WeakPassword,
    /// The password was not repeated as it was given.
    PasswordMismatch,
    /// The keystore does not open: the password is wrong or the file is
    /// damaged.
    DecryptionFailed,
}

/// How a key is to be written to disk.
#[derive(Debug, Clone, PartialEq, Eq)]
pub enum KeyExport {
    /// Encrypted under `password`, in the keystore file `path`.
    Encrypted { path: String, password: String },
    /// Without encryption: `contents` in the file `path`. Whoever reads the
    /// file has the key.
    Plain { path: String, contents: String },
}

/// Whether `password` is long enough: 8 bytes or more.
pub open spec fn strong_enough(password: &str) -> bool {
    password.len() >= MIN_PASSWORD_LENGTH
}

/// Checks that a password has 8 bytes or more.
pub fn check_password(password: &str) -> (r: Result<(), KeystoreError>)
    ensures
        strong_enough(password) ==> r is Ok,
        !strong_enough(password) ==> r == Err::<(), KeystoreError>(KeystoreError::WeakPassword),
{
    if password.len() < MIN_PASSWORD_LENGTH {
        Err(KeystoreError::WeakPassword)
    } else {
        Ok(())
    }
}

/// Checks a password and its repetition: the password must be long enough,
/// and the repetition must be the same text.
pub fn confirm_password(password: &str, repeated: &str) -> (r: Result<(), KeystoreError>)
    ensures
        !strong_enough(password) ==> r == Err::<(), KeystoreError>(KeystoreError::WeakPassword),
        strong_enough(password) && password@ != repeated@ ==> r == Err::<(), KeystoreError>(
            KeystoreError::PasswordMismatch,
        ),
        strong_enough(password) && password@ == repeated@ ==> r is Ok,
{
    match check_password(password) {
        Ok(()) => {},
        Err(e) => {
            return Err(e);
        },
    }
    if same_text(password, repeated) {
        Ok(())
    } else {
        Err(KeystoreError::PasswordMismatch)
    }
}

/// The name of the keystore file of the account at `address`, where no other
/// is asked for.
pub open spec fn keystore_file_name(address: Address) -> Seq<char> {
    "keystore-"@ + address.text() + ".json"@
}

/// The name of the plain-text key file of the account at `address`, where no
/// other is asked for.
pub open spec fn plain_file_name(address: Address) -> Seq<char> {
    "private-key-"@ + address.text() + ".txt"@
}

/// A private key as plain text: `0x` and 64 hexadecimal digits.
pub open spec fn plain_key_text(key: Seq<u8>) -> Seq<char> {
    "0x"@ + hex_text(key)
}

/// Lays out an encrypted keystore for `pair`: the password must be long
/// enough and repeated as it was given; the file is `output`, or one named
/// after the address.
pub fn encrypted_export(pair: &KeyPair, output: Option<String>, password: &str, repeated: &str) -> (r: Result<
    KeyExport,
    KeystoreError,
>)
    ensures
        !strong_enough(password) ==> r == Err::<KeyExport, KeystoreError>(KeystoreError::WeakPassword),
        strong_enough(password) && password@ != repeated@ ==> r == Err::<KeyExport, KeystoreError>(
            KeystoreError::PasswordMismatch,
        ),
        strong_enough(password) && password@ == repeated@ ==> (r matches Ok(
            KeyExport::Encrypted { path, password: kept },
        ) && kept@ == password@ && path@ == match output {
            Some(given) => given@,
            None => keystore_file_name(pair.address),
        }),
{
    match confirm_password(password, repeated) {
        Ok(()) => {},
        Err(e) => {
            return Err(e);
        },
    }
    let path = match output {
        Some(given) => given,
        None => join_text("keystore-", pair.address.to_text().as_str()).concat(".json"),
    };
    Ok(KeyExport::Encrypted { path, password: String::from_str(password) })
}

/// Lays out the plain-text file of the key of `pair`: the key as `0x` and
/// hexadecimal digits, in `output` or in a file named after the address.
/// This is for who asks for it outright, and is to be told
/// [`PLAIN_TEXT_WARNING`].
pub fn plain_export(pair: &KeyPair, output: Option<String>) -> (r: KeyExport)
    ensures
        r matches KeyExport::Plain { path, contents } && contents@ == plain_key_text(pair.private_key@)
            && path@ == match output {
            Some(given) => given@,
            None => plain_file_name(pair.address),
        },
{
    let path = match output {
        Some(given) => given,
        None => join_text("private-key-", pair.address.to_text().as_str()).concat(".txt"),
    };
    let contents = join_text("0x", encode(pair.private_key.as_slice()).as_str());
    KeyExport::Plain { path, contents }
}

/// Takes what opening a keystore gave: the key pair, or the failure to
/// decrypt where there is none.
pub fn accept_decrypted(opened: Option<KeyPair>) -> (r: Result<KeyPair, KeystoreError>)
    ensures
        match opened {
            Some(pair) => r == Ok::<KeyPair, KeystoreError>(pair),
            None => r == Err::<KeyPair, KeystoreError>(KeystoreError::DecryptionFailed),
        },
{
    match opened {
        Some(pair) => Ok(pair),
        None => Err(KeystoreError::DecryptionFailed),
    }
}

impl KeystoreError {
    /// The text of [`KeystoreError::message`].
    pub open spec fn message_text(self) -> Seq<char> {
        match self {
            KeystoreError::WeakPassword => "Password must be at least 8 characters long"@,
            KeystoreError::PasswordMismatch => "Passwords do not match!"@,
            KeystoreError::DecryptionFailed => "Failed to decrypt keystore. Check password and keystore file"@,
        }
    }

    /// What went wrong, in words.
    pub fn message(&self) -> (r: String)
        ensures
            r@ == self.message_text(),
    {
        match self {
            KeystoreError::WeakPassword => String::from_str("Password must be at least 8 characters long"),
            KeystoreError::PasswordMismatch => String::from_str("Passwords do not match!"),
            KeystoreError::DecryptionFailed => String::from_str(
                "Failed to decrypt keystore. Check password and keystore file",
            ),
        }
    }
}

} // verus!
