use cold_deploy::keystore::{
    accept_decrypted, check_password, confirm_password, encrypted_export, plain_export, KeyExport,
    KeystoreError, MIN_PASSWORD_LENGTH,
};
use cold_deploy::mnemonic::KeyPair;
use cold_deploy::primitives::Address;

fn pair() -> KeyPair {
    KeyPair { private_key: [0x46; 32], address: Address { bytes: [0xab; 20] } }
}

#[test]
fn short_password_is_refused() {
    assert_eq!(check_password("short"), Err(KeystoreError::WeakPassword));
    assert_eq!(check_password(""), Err(KeystoreError::WeakPassword));
    assert_eq!(check_password("1234567"), Err(KeystoreError::WeakPassword));
    assert_eq!(check_password("12345678"), Ok(()));
    assert_eq!(check_password("correct horse battery staple"), Ok(()));
    assert_eq!(MIN_PASSWORD_LENGTH, 8);
    assert_eq!(KeystoreError::WeakPassword.message(), "Password must be at least 8 characters long");
}

#[test]
fn short_password_lays_out_no_file() {
    assert_eq!(encrypted_export(&pair(), None, "short", "short"), Err(KeystoreError::WeakPassword));
    assert_eq!(
        encrypted_export(&pair(), Some("key.json".to_string()), "short", "other"),
        Err(KeystoreError::WeakPassword)
    );
}

#[test]
fn password_must_be_repeated() {
    assert_eq!(confirm_password("long enough", "long enough"), Ok(()));
    assert_eq!(confirm_password("long enough", "long enougH"), Err(KeystoreError::PasswordMismatch));
    assert_eq!(confirm_password("short", "long enough"), Err(KeystoreError::WeakPassword));
    assert_eq!(encrypted_export(&pair(), None, "long enough", "different"), Err(KeystoreError::PasswordMismatch));
    assert_eq!(KeystoreError::PasswordMismatch.message(), "Passwords do not match!");
}

#[test]
fn keystore_file_is_named_after_the_address() {
    assert_eq!(
        encrypted_export(&pair(), None, "long enough", "long enough"),
        Ok(KeyExport::Encrypted {
            path: "keystore-0xabababababababababababababababababababab.json".to_string(),
            password: "long enough".to_string(),
        })
    );
    assert_eq!(
        encrypted_export(&pair(), Some("keys/mine.json".to_string()), "long enough", "long enough"),
        Ok(KeyExport::Encrypted { path: "keys/mine.json".to_string(), password: "long enough".to_string() })
    );
}

#[test]
fn plain_export_writes_the_key_in_hexadecimal() {
    assert_eq!(
        plain_export(&pair(), None),
        KeyExport::Plain {
            path: "private-key-0xabababababababababababababababababababab.txt".to_string(),
            contents: "0x4646464646464646464646464646464646464646464646464646464646464646".to_string(),
        }
    );
    assert_eq!(
        plain_export(&pair(), Some("key.txt".to_string())),
        KeyExport::Plain {
            path: "key.txt".to_string(),
            contents: "0x4646464646464646464646464646464646464646464646464646464646464646".to_string(),
        }
    );
}

#[test]
fn keystore_that_does_not_open_is_a_decryption_failure() {
    assert_eq!(accept_decrypted(None), Err(KeystoreError::DecryptionFailed));
    assert_eq!(accept_decrypted(Some(pair())), Ok(pair()));
    assert_eq!(
        KeystoreError::DecryptionFailed.message(),
        "Failed to decrypt keystore. Check password and keystore file"
    );
}

#[test]
fn plain_export_comes_with_a_warning() {
    assert!(cold_deploy::keystore::PLAIN_TEXT_WARNING.contains("PLAIN TEXT"));
}
