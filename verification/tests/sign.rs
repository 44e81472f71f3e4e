use cold_deploy::descriptor::{FeeStrategy, UnsignedTransaction};
use cold_deploy::primitives::{Address, Word256};
use cold_deploy::sign::{build_request, describe_signed, sign, SignError, TxRequest, MAX_CHAIN_ID};

const KEY: [u8; 32] = [0x46; 32];
const SENDER: &str = "0x9d8a62f656a8d1615c1294fd71e9cfb3e4855a4f";

fn legacy() -> UnsignedTransaction {
    UnsignedTransaction {
        to: Some("0x3535353535353535353535353535353535353535".to_string()),
        data: String::new(),
        nonce: 9,
        gas_limit: 21_000,
        gas_price: Some(20_000_000_000),
        max_fee_per_gas: None,
        max_priority_fee_per_gas: None,
        chain_id: 1,
        value: "de0b6b3a7640000".to_string(),
        rpc_url: "http://localhost:8545".to_string(),
    }
}

fn dynamic() -> UnsignedTransaction {
    UnsignedTransaction {
        to: None,
        data: "6080604052".to_string(),
        nonce: 0,
        gas_limit: 3_000_000,
        gas_price: None,
        max_fee_per_gas: Some(21_500_000_000),
        max_priority_fee_per_gas: Some(1_500_000_000),
        chain_id: 11155111,
        value: "0".to_string(),
        rpc_url: "http://localhost:8545".to_string(),
    }
}

#[test]
fn legacy_transaction_is_signed_for_its_chain() {
    let signed = sign(&legacy(), &KEY).unwrap();
    assert_eq!(
        signed.raw_transaction,
        "0xf86c098504a817c800825208943535353535353535353535353535353535353535880de0b6b3a76400008025a028ef61340bd939bc2195fe537567866003e1a15d3c71ff63e1590620aa636276a067cbe9d8997f761aecb703304b3800ccf555c9f3dc64214b297fb1966a3b6d83"
    );
    assert_eq!(
        signed.transaction_hash,
        "0x33469b22e9f636356c4160a87eb19df52b7412e8eac32a4a55ffe88ea8350788"
    );
    assert_eq!(signed.from, SENDER);
    assert_eq!(signed.to, Some("0x3535353535353535353535353535353535353535".to_string()));
    assert_eq!(signed.nonce, 9);
    assert_eq!(signed.chain_id, 1);
    assert_eq!(signed.rpc_url, "http://localhost:8545");
}

#[test]
fn dynamic_fee_transaction_is_typed() {
    let signed = sign(&dynamic(), &KEY).unwrap();
    assert!(signed.raw_transaction.starts_with("0x02f8"));
    assert!(signed.raw_transaction.contains("6080604052"));
    assert_eq!(signed.from, SENDER);
    assert_eq!(signed.to, None);
    assert_eq!(signed.chain_id, 11155111);
    assert_eq!(signed.transaction_hash.len(), 66);
    assert_eq!(sign(&dynamic(), &KEY), Ok(signed));
}

#[test]
fn descriptor_fields_are_checked_in_order() {
    let mut tx = legacy();
    tx.max_fee_per_gas = Some(1);
    tx.to = Some("nowhere".to_string());
    assert_eq!(sign(&tx, &KEY), Err(SignError::InvalidFees));
    let mut tx = legacy();
    tx.gas_price = None;
    assert_eq!(sign(&tx, &KEY), Err(SignError::InvalidFees));
    let mut tx = legacy();
    tx.to = Some("nowhere".to_string());
    tx.data = "0x".to_string();
    assert_eq!(sign(&tx, &KEY), Err(SignError::InvalidRecipient));
    let mut tx = legacy();
    tx.data = "0x6001".to_string();
    tx.value = "ten".to_string();
    assert_eq!(sign(&tx, &KEY), Err(SignError::InvalidData));
    let mut tx = legacy();
    tx.value = "ten".to_string();
    assert_eq!(sign(&tx, &KEY), Err(SignError::InvalidValue));
    let mut tx = legacy();
    tx.chain_id = MAX_CHAIN_ID + 1;
    assert_eq!(sign(&tx, &KEY), Err(SignError::ChainIdTooLarge));
    assert_eq!(sign(&legacy(), &[0u8; 32]), Err(SignError::InvalidKey));
    assert_eq!(SignError::InvalidRecipient.message(), "Invalid to address");
}

#[test]
fn greatest_chain_id_is_signed_for() {
    let mut tx = legacy();
    tx.chain_id = MAX_CHAIN_ID;
    let signed = sign(&tx, &KEY).unwrap();
    assert_eq!(signed.chain_id, MAX_CHAIN_ID);
    let mut tx = dynamic();
    tx.chain_id = MAX_CHAIN_ID;
    assert!(sign(&tx, &KEY).is_ok());
}

#[test]
fn request_holds_the_fields_read() {
    assert_eq!(
        build_request(&legacy()),
        Ok(TxRequest {
            chain_id: 1,
            nonce: 9,
            gas_limit: 21_000,
            fees: FeeStrategy::Legacy { gas_price: 20_000_000_000 },
            to: Some(Address { bytes: [0x35; 20] }),
            data: vec![],
            value: Word256 { limbs: [1_000_000_000_000_000_000, 0, 0, 0] },
        })
    );
    let mut tx = dynamic();
    tx.value = "0x10000000000000000".to_string();
    assert_eq!(
        build_request(&tx),
        Ok(TxRequest {
            chain_id: 11155111,
            nonce: 0,
            gas_limit: 3_000_000,
            fees: FeeStrategy::Dynamic { max_fee_per_gas: 21_500_000_000, max_priority_fee_per_gas: 1_500_000_000 },
            to: None,
            data: vec![0x60, 0x80, 0x60, 0x40, 0x52],
            value: Word256 { limbs: [0, 1, 0, 0] },
        })
    );
    let mut tx = dynamic();
    tx.value = "fff".to_string();
    assert_eq!(build_request(&tx).map(|r| r.value), Ok(Word256 { limbs: [0xfff, 0, 0, 0] }));
    tx.value = String::new();
    assert_eq!(build_request(&tx).map(|r| r.value), Ok(Word256 { limbs: [0, 0, 0, 0] }));
    tx.value = "1".repeat(65);
    assert_eq!(build_request(&tx), Err(SignError::InvalidValue));
}

#[test]
fn hash_is_the_digest_of_the_raw_bytes() {
    let signed = describe_signed(&vec![], &Address { bytes: [0x11; 20] }, &legacy());
    assert_eq!(signed.raw_transaction, "0x");
    assert_eq!(
        signed.transaction_hash,
        "0xc5d2460186f7233c927e7db2dcc703c0e500b653ca82273b7bfad8045d85a470"
    );
    assert_eq!(signed.from, "0x1111111111111111111111111111111111111111");
    let signed = describe_signed(&vec![0x61, 0x62, 0x63], &Address { bytes: [0; 20] }, &legacy());
    assert_eq!(signed.raw_transaction, "0x616263");
    assert_eq!(
        signed.transaction_hash,
        "0x4e03657aea45a94fc7d47ba826c8d667c0d1e6e33a64a036ec44f58fa12d6c45"
    );
}

#[test]
fn dynamic_fee_transaction_decodes_to_its_fields() {
    let mut unsigned = dynamic();
    unsigned.to = Some("0x3535353535353535353535353535353535353535".to_string());
    unsigned.value = "0x2a".to_string();
    unsigned.nonce = 3;
    let signed = sign(&unsigned, &KEY).unwrap();
    let raw = hex::decode(&signed.raw_transaction[2..]).unwrap();
    let tx: ethers::types::Transaction = ethers::utils::rlp::decode(&raw).unwrap();
    assert_eq!(tx.transaction_type, Some(2u64.into()));
    assert_eq!(tx.chain_id, Some(11155111u64.into()));
    assert_eq!(tx.nonce, 3u64.into());
    assert_eq!(tx.gas, 3_000_000u64.into());
    assert_eq!(tx.max_fee_per_gas, Some(21_500_000_000u64.into()));
    assert_eq!(tx.max_priority_fee_per_gas, Some(1_500_000_000u64.into()));
    assert_eq!(tx.to, Some(ethers::types::H160([0x35; 20])));
    assert_eq!(tx.value, 42u64.into());
    assert_eq!(tx.input.to_vec(), vec![0x60, 0x80, 0x60, 0x40, 0x52]);
    assert_eq!(format!("{:?}", tx.recover_from().unwrap()), SENDER);
    assert_eq!(format!("{:?}", tx.hash), signed.transaction_hash);
}

#[test]
fn legacy_transaction_decodes_to_its_fields() {
    let mut unsigned = legacy();
    unsigned.to = None;
    unsigned.data = "6001".to_string();
    unsigned.chain_id = 137;
    let signed = sign(&unsigned, &KEY).unwrap();
    let raw = hex::decode(&signed.raw_transaction[2..]).unwrap();
    let tx: ethers::types::Transaction = ethers::utils::rlp::decode(&raw).unwrap();
    assert_eq!(tx.chain_id, Some(137u64.into()));
    assert_eq!(tx.nonce, 9u64.into());
    assert_eq!(tx.gas_price, Some(20_000_000_000u64.into()));
    assert_eq!(tx.to, None);
    assert_eq!(tx.value, ethers::types::U256::from(1_000_000_000_000_000_000u64));
    assert_eq!(tx.input.to_vec(), vec![0x60, 0x01]);
    assert_eq!(format!("{:?}", tx.recover_from().unwrap()), SENDER);
    assert_eq!(format!("{:?}", tx.hash), signed.transaction_hash);
}

fn value_of(text: &str) -> Result<Word256, SignError> {
    let mut tx = legacy();
    tx.value = text.to_string();
    build_request(&tx).map(|request| request.value)
}

#[test]
fn value_is_read_in_hexadecimal() {
    assert_eq!(value_of("0x"), Ok(Word256 { limbs: [0, 0, 0, 0] }));
    assert_eq!(value_of("10"), Ok(Word256 { limbs: [16, 0, 0, 0] }));
    assert_eq!(value_of("0xAbC"), Ok(Word256 { limbs: [0xabc, 0, 0, 0] }));
    assert_eq!(value_of(&"f".repeat(64)), Ok(Word256 { limbs: [u64::MAX; 4] }));
    assert_eq!(value_of(&format!("0x{}", "f".repeat(64))), Ok(Word256 { limbs: [u64::MAX; 4] }));
    assert_eq!(value_of(&format!("1{}", "0".repeat(48))), Ok(Word256 { limbs: [0, 0, 0, 1] }));
    assert_eq!(value_of(&format!("0{}", "f".repeat(64))), Err(SignError::InvalidValue));
    assert_eq!(value_of("0X10"), Err(SignError::InvalidValue));
    assert_eq!(value_of(" 10"), Err(SignError::InvalidValue));
    assert_eq!(value_of("1 0"), Err(SignError::InvalidValue));
    assert_eq!(value_of("1g"), Err(SignError::InvalidValue));
    assert_eq!(value_of("é"), Err(SignError::InvalidValue));
}
