use cold_deploy::mnemonic::{
    accept_generated, derive_key, generate_mnemonic, validate_mnemonic, MnemonicError,
    DEFAULT_ETH_DERIVATION_PATH, MNEMONIC_WORDS,
};

const PHRASE: &str = "abandon abandon abandon abandon abandon abandon abandon abandon abandon abandon abandon abandon abandon abandon abandon abandon abandon abandon abandon abandon abandon abandon abandon art";

#[test]
fn phrase_of_24_words_is_accepted_whatever_the_words() {
    assert_eq!(validate_mnemonic(PHRASE), Ok(()));
    let nonsense = vec!["zzz"; 24].join(" ");
    assert_eq!(validate_mnemonic(&nonsense), Ok(()));
    let spaced = vec!["word"; 24].join(" \n\t ");
    assert_eq!(validate_mnemonic(&spaced), Ok(()));
}

#[test]
fn other_word_counts_are_refused() {
    assert_eq!(validate_mnemonic(""), Err(MnemonicError::InvalidMnemonic { words: 0 }));
    let twelve = vec!["abandon"; 12].join(" ");
    assert_eq!(validate_mnemonic(&twelve), Err(MnemonicError::InvalidMnemonic { words: 12 }));
    let twenty_three = vec!["abandon"; 23].join(" ");
    assert_eq!(validate_mnemonic(&twenty_three), Err(MnemonicError::InvalidMnemonic { words: 23 }));
    let twenty_five = vec!["abandon"; 25].join(" ");
    let error = validate_mnemonic(&twenty_five).unwrap_err();
    assert_eq!(error, MnemonicError::InvalidMnemonic { words: 25 });
    assert_eq!(
        error.message(),
        "Invalid mnemonic: expected 24 words, got 25. Please check your mnemonic phrase."
    );
}

#[test]
fn derivation_is_deterministic() {
    let first = derive_key(PHRASE).unwrap();
    let second = derive_key(PHRASE).unwrap();
    assert_eq!(first, second);
    assert_eq!(first.address.to_text(), "0xf278cf59f82edcf871d630f28ecc8056f25c1cdb");
    assert_eq!(
        first.private_key.iter().map(|b| format!("{:02x}", b)).collect::<String>(),
        "1053fae1b3ac64f178bcc21026fd06a3f4544ec2f35338b001f02d1d8efa3d5f"
    );
    let padded = format!("  {}\n", PHRASE);
    assert_eq!(derive_key(&padded), Ok(first));
}

#[test]
fn derivation_checks_the_phrase() {
    assert_eq!(derive_key("abandon abandon"), Err(MnemonicError::InvalidMnemonic { words: 2 }));
    let nonsense = vec!["zzz"; 24].join(" ");
    assert_eq!(derive_key(&nonsense), Err(MnemonicError::DerivationFailed));
    let wrong_checksum = vec!["abandon"; 24].join(" ");
    assert_eq!(derive_key(&wrong_checksum), Err(MnemonicError::DerivationFailed));
}

#[test]
fn generated_phrase_has_24_words_and_a_key() {
    let phrase = generate_mnemonic().unwrap();
    assert_eq!(phrase.split_whitespace().count(), 24);
    assert_eq!(validate_mnemonic(&phrase), Ok(()));
    assert!(derive_key(&phrase).is_ok());
    assert!(phrase.split(' ').all(|word| !word.is_empty() && word.chars().all(|c| c.is_ascii_lowercase())));
    assert!(generate_mnemonic().unwrap() != phrase);
    for _ in 0..50 {
        assert_eq!(generate_mnemonic().map(|made| made.split_whitespace().count()), Ok(24));
    }
    assert_eq!(MNEMONIC_WORDS, 24);
    assert_eq!(DEFAULT_ETH_DERIVATION_PATH, "m/44'/60'/0'/0/0");
}

#[test]
fn generated_phrase_is_checked() {
    assert_eq!(accept_generated(None), Err(MnemonicError::GenerationFailed));
    assert_eq!(accept_generated(Some("one two".to_string())), Err(MnemonicError::InvalidMnemonic { words: 2 }));
    assert_eq!(accept_generated(Some(PHRASE.to_string())), Ok(PHRASE.to_string()));
}
