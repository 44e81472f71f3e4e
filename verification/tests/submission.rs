use cold_deploy::submission::{
    advance, BroadcastError, BroadcastOutcome, BroadcastReply, BroadcastRequest, BroadcastStage,
    BroadcastStep, Receipt,
};
use cold_deploy::descriptor::SignedTransaction;
use cold_deploy::primitives::Address;

fn signed(chain_id: u64) -> SignedTransaction {
    SignedTransaction {
        raw_transaction: "0x02f86b01".to_string(),
        transaction_hash: "0x00".to_string(),
        from: "0x9d8a62f656a8d1615c1294fd71e9cfb3e4855a4f".to_string(),
        to: None,
        nonce: 0,
        chain_id,
        rpc_url: "http://localhost:8545".to_string(),
    }
}

fn receipt(status: u64) -> Receipt {
    Receipt { block_number: 12, gas_used: 21_000, status, contract_address: Some(Address { bytes: [7; 20] }) }
}

#[test]
fn other_chain_aborts_before_anything_is_sent() {
    let tx = signed(1);
    let stage = BroadcastStage::Connecting;
    assert_eq!(stage.request(), BroadcastRequest::Connect);
    let stage = match advance(&tx, &stage, BroadcastReply::Connected) {
        BroadcastStep::Next(stage) => stage,
        other => panic!("{:?}", other),
    };
    assert_eq!(stage, BroadcastStage::Verifying);
    assert_eq!(stage.request(), BroadcastRequest::ChainId);
    let step = advance(&tx, &stage, BroadcastReply::ChainId(5));
    assert_eq!(step, BroadcastStep::Failed(BroadcastError::ChainMismatch { signed_for: 1, reported: 5 }));
    assert_eq!(
        BroadcastError::ChainMismatch { signed_for: 1, reported: 5 }.message(),
        "Chain ID mismatch! Transaction signed for chain 1 but RPC is on chain 5"
    );
}

#[test]
fn same_chain_sends_the_signed_bytes() {
    let tx = signed(5);
    let stage = match advance(&tx, &BroadcastStage::Verifying, BroadcastReply::ChainId(5)) {
        BroadcastStep::Next(stage) => stage,
        other => panic!("{:?}", other),
    };
    assert_eq!(stage, BroadcastStage::Submitting { raw: vec![0x02, 0xf8, 0x6b, 0x01] });
    assert_eq!(stage.request(), BroadcastRequest::SendRawTransaction { raw: vec![0x02, 0xf8, 0x6b, 0x01] });
    let stage = match advance(&tx, &stage, BroadcastReply::Submitted) {
        BroadcastStep::Next(stage) => stage,
        other => panic!("{:?}", other),
    };
    assert_eq!(stage, BroadcastStage::Confirming);
    assert_eq!(stage.request(), BroadcastRequest::AwaitReceipt);
    assert_eq!(
        advance(&tx, &stage, BroadcastReply::Receipt(Some(receipt(1)))),
        BroadcastStep::Done(BroadcastOutcome::Confirmed(receipt(1)))
    );
}

#[test]
fn receipts_decide_the_end() {
    let tx = signed(5);
    let stage = BroadcastStage::Confirming;
    assert_eq!(advance(&tx, &stage, BroadcastReply::Receipt(None)), BroadcastStep::Done(BroadcastOutcome::Dropped));
    assert_eq!(
        advance(&tx, &stage, BroadcastReply::Receipt(Some(receipt(0)))),
        BroadcastStep::Failed(BroadcastError::Reverted(receipt(0)))
    );
    assert_eq!(
        advance(&tx, &stage, BroadcastReply::Failure),
        BroadcastStep::Failed(BroadcastError::TransactionFailed)
    );
    assert_eq!(BroadcastError::TransactionFailed.message(), "Transaction failed");
    assert_eq!(BroadcastError::Reverted(receipt(0)).message(), "Transaction reverted in block 12");
}

#[test]
fn failures_end_the_broadcast() {
    let tx = signed(5);
    assert_eq!(
        advance(&tx, &BroadcastStage::Connecting, BroadcastReply::Failure),
        BroadcastStep::Failed(BroadcastError::ConnectionFailed)
    );
    assert_eq!(
        advance(&tx, &BroadcastStage::Verifying, BroadcastReply::Failure),
        BroadcastStep::Failed(BroadcastError::ChainIdUnavailable)
    );
    assert_eq!(
        advance(&tx, &BroadcastStage::Submitting { raw: vec![1] }, BroadcastReply::Failure),
        BroadcastStep::Failed(BroadcastError::SubmissionFailed)
    );
    assert_eq!(
        advance(&tx, &BroadcastStage::Connecting, BroadcastReply::ChainId(5)),
        BroadcastStep::Failed(BroadcastError::UnexpectedReply)
    );
    assert_eq!(
        advance(&tx, &BroadcastStage::Verifying, BroadcastReply::Submitted),
        BroadcastStep::Failed(BroadcastError::UnexpectedReply)
    );
}

#[test]
fn raw_transaction_must_be_hexadecimal() {
    let mut tx = signed(5);
    tx.raw_transaction = "0x02f".to_string();
    assert_eq!(
        advance(&tx, &BroadcastStage::Verifying, BroadcastReply::ChainId(5)),
        BroadcastStep::Failed(BroadcastError::InvalidRawTransaction)
    );
    assert_eq!(
        advance(&tx, &BroadcastStage::Verifying, BroadcastReply::ChainId(6)),
        BroadcastStep::Failed(BroadcastError::ChainMismatch { signed_for: 5, reported: 6 })
    );
    tx.raw_transaction = "02F86B".to_string();
    assert_eq!(
        advance(&tx, &BroadcastStage::Verifying, BroadcastReply::ChainId(5)),
        BroadcastStep::Next(BroadcastStage::Submitting { raw: vec![0x02, 0xf8, 0x6b] })
    );
}
