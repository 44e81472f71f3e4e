use cold_deploy::abi::{AbiFunction, AbiParam, ContractAbi, ParamKind, ValueKind};
use cold_deploy::submission::{advance, BroadcastReply, BroadcastRequest, BroadcastStage, BroadcastStep};
use cold_deploy::contract::{AbiField, BytecodeField, ContractDocument};
use cold_deploy::mnemonic::derive_key;
use cold_deploy::prepare::{plan, PrepareParams, RpcReply, Stage, Step};
use cold_deploy::sign::{build_request, sign};

const PHRASE: &str = "abandon abandon abandon abandon abandon abandon abandon abandon abandon abandon abandon abandon abandon abandon abandon abandon abandon abandon abandon abandon abandon abandon abandon art";

fn token() -> ContractDocument {
    ContractDocument::Fields {
        bytecode: BytecodeField::Object(Some("0x600a600c".to_string())),
        abi: AbiField::Described(ContractAbi {
            constructor: Some(vec![AbiParam {
                name: "supply".to_string(),
                kind: ParamKind::Value(ValueKind::Uint(256)),
            }]),
            functions: vec![AbiFunction {
                name: "transfer".to_string(),
                inputs: vec![
                    AbiParam { name: "to".to_string(), kind: ParamKind::Value(ValueKind::Address) },
                    AbiParam { name: "amount".to_string(), kind: ParamKind::Value(ValueKind::Uint(256)) },
                ],
            }],
        }),
    }
}

#[test]
fn prepared_call_is_signed_and_sent_unchanged() {
    let pair = derive_key(PHRASE).unwrap();
    let params = PrepareParams {
        contract: "Token.json".to_string(),
        rpc_url: "http://localhost:8545".to_string(),
        from: pair.address.to_text(),
        to: Some("0x00000000000000000000000000000000000000aa".to_string()),
        function_name: Some("transfer".to_string()),
        args: Some("0x00000000000000000000000000000000000000bb, 1000".to_string()),
        value: "0".to_string(),
        output: "unsigned.json".to_string(),
        gas_limit: Some(100_000),
    };
    let plan = plan(token(), &params).unwrap();
    let mut stage = Stage::Connecting;
    let replies = vec![
        RpcReply::Connected,
        RpcReply::ChainId(5),
        RpcReply::TransactionCount(12),
        RpcReply::FeeHistory(vec![30_000_000_000]),
    ];
    let mut ready = None;
    for reply in replies {
        match plan.advance(stage, reply) {
            Step::Next(next) => stage = next,
            Step::Ready(tx) => ready = Some(tx),
            Step::Failed(e) => panic!("{:?}", e),
        }
    }
    let unsigned = ready.unwrap();
    assert_eq!(unsigned.to, Some("0x00000000000000000000000000000000000000aa".to_string()));
    assert_eq!(
        unsigned.data,
        "a9059cbb00000000000000000000000000000000000000000000000000000000000000bb00000000000000000000000000000000000000000000000000000000000003e8"
    );
    assert_eq!(unsigned.max_fee_per_gas, Some(61_500_000_000));

    let request = build_request(&unsigned).unwrap();
    assert_eq!(request.data, plan.payload.data);
    assert_eq!(request.to, plan.payload.to);

    let signed = sign(&unsigned, &pair.private_key).unwrap();
    assert_eq!(signed.from, pair.address.to_text());
    assert_eq!(signed.chain_id, 5);
    assert_eq!(signed.nonce, 12);

    let stage = match advance(&signed, &BroadcastStage::Verifying, BroadcastReply::ChainId(5)) {
        BroadcastStep::Next(stage) => stage,
        other => panic!("{:?}", other),
    };
    let sent = match stage.request() {
        BroadcastRequest::SendRawTransaction { raw } => raw,
        other => panic!("{:?}", other),
    };
    assert_eq!(format!("0x{}", hex::encode(&sent)), signed.raw_transaction);
    let tx: ethers::types::Transaction = ethers::utils::rlp::decode(&sent).unwrap();
    assert_eq!(tx.recover_from().unwrap().0, pair.address.bytes);
    assert_eq!(tx.input.to_vec(), plan.payload.data);
    assert_eq!(tx.gas, 100_000u64.into());
}

#[test]
fn deployment_with_an_argument_appends_it_to_the_bytecode() {
    let params = PrepareParams {
        contract: "Token.json".to_string(),
        rpc_url: "http://localhost:8545".to_string(),
        from: "0x00000000000000000000000000000000000000cc".to_string(),
        to: None,
        function_name: None,
        args: Some("255".to_string()),
        value: "0".to_string(),
        output: "unsigned.json".to_string(),
        gas_limit: None,
    };
    let plan = plan(token(), &params).unwrap();
    assert_eq!(plan.payload.to, None);
    let mut expected = vec![0x60, 0x0a, 0x60, 0x0c];
    expected.extend_from_slice(&[0u8; 31]);
    expected.push(0xff);
    assert_eq!(plan.payload.data, expected);
}
