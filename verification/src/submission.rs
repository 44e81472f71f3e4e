//! Sending a signed transaction: the chain is asked for its id first, and
//! the transaction is handed over only where that id is the one it was
//! signed for.

use crate::descriptor::SignedTransaction;
use crate::hexcodec::{decode, hex_bytes, is_hex_text};
use crate::primitives::Address;
use crate::text::{join_text, decimal, decimal_text, strip_hex_prefix, without_hex_prefix};
use vstd::prelude::*;
use vstd::string::StringExecFns;

verus! {

/// What the chain reports of a transaction that it has included.
#[derive(Debug, Clone, Copy, PartialEq, Eq)]
pub struct Receipt {
    pub block_number: u64,
    pub gas_used: u64,
    /// 1 where the transaction succeeded.
    pub status: u64,
    /// The address of the contract that the transaction deployed, if any.
    pub contract_address: Option<Address>,
}

/// Why a broadcast failed.
#[derive(Debug, Clone, Copy, PartialEq, Eq)]
pub enum BroadcastError {
    /// The endpoint could not be reached.
    ConnectionFailed,
    /// The chain did not tell its id.
    ChainIdUnavailable,
    /// The transaction was signed for another chain than the endpoint's.
    ChainMismatch { signed_for: u64, reported: u64 },
    /// The signed bytes are not written in hexadecimal.
    InvalidRawTransaction,
    /// The endpoint did not take the transaction.
    SubmissionFailed,
    /// Waiting for the receipt failed.
    TransactionFailed,
    /// The transaction was included and reverted.
    Reverted(Receipt),
    /// The reply answers another question than the one that was asked.
    UnexpectedReply,
}

/// How a broadcast ended without an error.
#[derive(Debug, Clone, Copy, PartialEq, Eq)]
pub enum BroadcastOutcome {
    /// The transaction was included and succeeded.
    Confirmed(Receipt),
    /// The transaction left the pool without being included.
    Dropped,
}

/// What a broadcast asks of the endpoint.
#[derive(Debug, Clone, PartialEq, Eq)]
pub enum BroadcastRequest {
    /// Reach the endpoint.
    Connect,
    /// The chain's id.
    ChainId,
    /// Take the signed transaction. This is the one request that writes.
    SendRawTransaction { raw: Vec<u8> },
    /// Wait for the receipt.
    AwaitReceipt,
}

/// What the endpoint answered.
#[derive(Debug, Clone, Copy, PartialEq, Eq)]
pub enum BroadcastReply {
    Connected,
    ChainId(u64),
    Submitted,
    /// The receipt, or none where the transaction was dropped.
    Receipt(Option<Receipt>),
    /// The question went unanswered.
    Failure,
}

/// How far a broadcast has come.
#[derive(Debug, Clone, PartialEq, Eq)]
pub enum BroadcastStage {
    Connecting,
    Verifying,
    /// The chain id is verified; holds the bytes to send.
    Submitting { raw: Vec<u8> },
    Confirming,
}

/// A stage without what it holds.
#[derive(Debug, Clone, Copy, PartialEq, Eq)]
pub enum StageKind {
    Connecting,
    Verifying,
    Submitting,
    Confirming,
}

/// Where a reply leads.
#[derive(Debug, Clone, PartialEq, Eq)]
pub enum BroadcastStep {
    Next(BroadcastStage),
    Done(BroadcastOutcome),
    Failed(BroadcastError),
}

/// Where a reply leads, without what the next stage holds.
pub enum Transition {
    Next(StageKind),
    Done(BroadcastOutcome),
    Failed(BroadcastError),
}

impl BroadcastStage {
    /// The stage without what it holds.
    pub open spec fn kind(self) -> StageKind {
        match self {
            BroadcastStage::Connecting => StageKind::Connecting,
            BroadcastStage::Verifying => StageKind::Verifying,
            BroadcastStage::Submitting { .. } => StageKind::Submitting,
            BroadcastStage::Confirming => StageKind::Confirming,
        }
    }

    /// The question that is asked at this stage.
    pub fn request(&self) -> (r: BroadcastRequest)
        ensures
            r is SendRawTransaction <==> self.kind() == StageKind::Submitting,
            match *self {
                BroadcastStage::Connecting => r == BroadcastRequest::Connect,
                BroadcastStage::Verifying => r == BroadcastRequest::ChainId,
                BroadcastStage::Submitting { raw } => r matches BroadcastRequest::SendRawTransaction {
                    raw: sent,
                } && sent@ == raw@,
                BroadcastStage::Confirming => r == BroadcastRequest::AwaitReceipt,
            },
    {
        match self {
            BroadcastStage::Connecting => BroadcastRequest::Connect,
            BroadcastStage::Verifying => BroadcastRequest::ChainId,
            BroadcastStage::Submitting { raw } => BroadcastRequest::SendRawTransaction { raw: raw.clone() },
            BroadcastStage::Confirming => BroadcastRequest::AwaitReceipt,
        }
    }
}

/// The digits of the signed bytes: the raw transaction without a leading
/// `0x`.
pub open spec fn raw_digits(signed: SignedTransaction) -> Seq<char> {
    without_hex_prefix(signed.raw_transaction@)
}

/// Where `reply` leads from a stage of the kind `stage`. The chain's id is
/// compared before anything is sent: another id than the one the transaction
/// was signed for ends the broadcast. A receipt with a status other than 1
/// is a failure; no receipt means that the transaction was dropped.
pub open spec fn transition(signed: SignedTransaction, stage: StageKind, reply: BroadcastReply) -> Transition {
    match (stage, reply) {
        (StageKind::Connecting, BroadcastReply::Connected) => Transition::Next(StageKind::Verifying),
        (StageKind::Connecting, BroadcastReply::Failure) => Transition::Failed(
            BroadcastError::ConnectionFailed,
        ),
        (StageKind::Verifying, BroadcastReply::ChainId(reported)) => if reported != signed.chain_id {
            Transition::Failed(
                BroadcastError::ChainMismatch { signed_for: signed.chain_id, reported },
            )
        } else if !is_hex_text(raw_digits(signed)) {
            Transition::Failed(BroadcastError::InvalidRawTransaction)
        } else {
            Transition::Next(StageKind::Submitting)
        },
        (StageKind::Verifying, BroadcastReply::Failure) => Transition::Failed(
            BroadcastError::ChainIdUnavailable,
        ),
        (StageKind::Submitting, BroadcastReply::Submitted) => Transition::Next(StageKind::Confirming),
        (StageKind::Submitting, BroadcastReply::Failure) => Transition::Failed(
            BroadcastError::SubmissionFailed,
        ),
        (StageKind::Confirming, BroadcastReply::Receipt(Some(receipt))) => if receipt.status == 1 {
            Transition::Done(BroadcastOutcome::Confirmed(receipt))
        } else {
            Transition::Failed(BroadcastError::Reverted(receipt))
        },
        (StageKind::Confirming, BroadcastReply::Receipt(None)) => Transition::Done(
            BroadcastOutcome::Dropped,
        ),
        (StageKind::Confirming, BroadcastReply::Failure) => Transition::Failed(
            BroadcastError::TransactionFailed,
        ),
        _ => Transition::Failed(BroadcastError::UnexpectedReply),
    }
}

impl BroadcastStep {
    /// Whether this step is the transition `t` of the broadcast of `signed`:
    /// the same end, or a next stage of the same kind that, where it is to
    /// send, holds the signed bytes.
    pub open spec fn realizes(self, t: Transition, signed: SignedTransaction) -> bool {
        match t {
            Transition::Next(kind) => self matches BroadcastStep::Next(stage) && stage.kind() == kind && (
            stage matches BroadcastStage::Submitting { raw } ==> raw@ == hex_bytes(raw_digits(signed))),
            Transition::Done(outcome) => self == BroadcastStep::Done(outcome),
            Transition::Failed(error) => self == BroadcastStep::Failed(error),
        }
    }
}

/// Takes the endpoint's reply to the question of `stage`.
pub fn advance(signed: &SignedTransaction, stage: &BroadcastStage, reply: BroadcastReply) -> (step: BroadcastStep)
    ensures
        step.realizes(transition(*signed, stage.kind(), reply), *signed),
{
    match (stage, reply) {
        (BroadcastStage::Connecting, BroadcastReply::Connected) => BroadcastStep::Next(
            BroadcastStage::Verifying,
        ),
        (BroadcastStage::Connecting, BroadcastReply::Failure) => BroadcastStep::Failed(
            BroadcastError::ConnectionFailed,
        ),
        (BroadcastStage::Verifying, BroadcastReply::ChainId(reported)) => {
            if reported != signed.chain_id {
                BroadcastStep::Failed(
                    BroadcastError::ChainMismatch { signed_for: signed.chain_id, reported },
                )
            } else {
                match decode(strip_hex_prefix(signed.raw_transaction.as_str())) {
                    Some(raw) => BroadcastStep::Next(BroadcastStage::Submitting { raw }),
                    None => BroadcastStep::Failed(BroadcastError::InvalidRawTransaction),
                }
            }
        },
        (BroadcastStage::Verifying, BroadcastReply::Failure) => BroadcastStep::Failed(
            BroadcastError::ChainIdUnavailable,
        ),
        (BroadcastStage::Submitting { .. }, BroadcastReply::Submitted) => BroadcastStep::Next(
            BroadcastStage::Confirming,
        ),
        (BroadcastStage::Submitting { .. }, BroadcastReply::Failure) => BroadcastStep::Failed(
            BroadcastError::SubmissionFailed,
        ),
        (BroadcastStage::Confirming, BroadcastReply::Receipt(Some(receipt))) => {
            if receipt.status == 1 {
                BroadcastStep::Done(BroadcastOutcome::Confirmed(receipt))
            } else {
                BroadcastStep::Failed(BroadcastError::Reverted(receipt))
            }
        },
        (BroadcastStage::Confirming, BroadcastReply::Receipt(None)) => BroadcastStep::Done(
            BroadcastOutcome::Dropped,
        ),
        (BroadcastStage::Confirming, BroadcastReply::Failure) => BroadcastStep::Failed(
            BroadcastError::TransactionFailed,
        ),
        _ => BroadcastStep::Failed(BroadcastError::UnexpectedReply),
    }
}

/// The stage that a broadcast of `signed` is at after the replies `replies`,
/// taken in order from the start; `None` once it has ended.
pub open spec fn stage_after(signed: SignedTransaction, replies: Seq<BroadcastReply>) -> Option<StageKind>
    decreases replies.len(),
{
    if replies.len() == 0 {
        Some(StageKind::Connecting)
    } else {
        match stage_after(signed, replies.drop_last()) {
            Some(stage) => match transition(signed, stage, replies.last()) {
                Transition::Next(next) => Some(next),
                _ => None,
            },
            None => None,
        }
    }
}

/// A broadcast gets to send, or beyond, only after the chain has reported
/// the id that the transaction was signed for. Where every id that the chain
/// reports is another one, nothing is ever sent.
pub proof fn lemma_chain_binding(signed: SignedTransaction, replies: Seq<BroadcastReply>)
    requires
        forall|i: int| 0 <= i < replies.len() ==> #[trigger] replies[i] != BroadcastReply::ChainId(signed.chain_id),
    ensures
        stage_after(signed, replies) != Some(StageKind::Submitting),
        stage_after(signed, replies) != Some(StageKind::Confirming),
    decreases replies.len(),
{
    if replies.len() > 0 {
        let before = replies.drop_last();
        assert forall|i: int| 0 <= i < before.len() implies #[trigger] before[i] != BroadcastReply::ChainId(
            signed.chain_id,
        ) by {
            assert(before[i] == replies[i]);
        }
        lemma_chain_binding(signed, before);
        assert(replies.last() == replies[replies.len() - 1]);
    }
}

/// The stages come in one order, each one reply after the one before: the
/// endpoint is reached, then the chain tells its id, then the transaction is
/// sent, then its receipt is awaited. So the transaction is sent at most
/// once, as the third request, after the chain has reported the id that the
/// transaction was signed for, and only where its raw bytes are written in
/// hexadecimal.
pub proof fn lemma_sent_once_after_the_chain_id(signed: SignedTransaction, replies: Seq<BroadcastReply>)
    ensures
        stage_after(signed, replies) == Some(StageKind::Connecting) ==> replies.len() == 0,
        stage_after(signed, replies) == Some(StageKind::Verifying) ==> replies =~= seq![
            BroadcastReply::Connected,
        ],
        stage_after(signed, replies) == Some(StageKind::Submitting) ==> is_hex_text(raw_digits(signed))
            && replies =~= seq![BroadcastReply::Connected, BroadcastReply::ChainId(signed.chain_id)],
        stage_after(signed, replies) == Some(StageKind::Confirming) ==> is_hex_text(raw_digits(signed))
            && replies =~= seq![
            BroadcastReply::Connected,
            BroadcastReply::ChainId(signed.chain_id),
            BroadcastReply::Submitted,
        ],
    decreases replies.len(),
{
    if replies.len() > 0 {
        let before = replies.drop_last();
        lemma_sent_once_after_the_chain_id(signed, before);
        assert(replies =~= before.push(replies.last()));
    }
}

/// A reply that reports another chain id than the one the transaction was
/// signed for ends the broadcast with that error, whatever the stage holds.
pub proof fn lemma_mismatch_aborts(signed: SignedTransaction, reported: u64)
    requires
        reported != signed.chain_id,
    ensures
        transition(signed, StageKind::Verifying, BroadcastReply::ChainId(reported)) == Transition::Failed(
            BroadcastError::ChainMismatch { signed_for: signed.chain_id, reported },
        ),
{
}

impl BroadcastError {
    /// The text of [`BroadcastError::message`].
    pub open spec fn message_text(self) -> Seq<char> {
        match self {
            BroadcastError::ConnectionFailed => "Failed to create provider"@,
            BroadcastError::ChainIdUnavailable => "Failed to fetch chain ID from RPC"@,
            BroadcastError::ChainMismatch { signed_for, reported } => "Chain ID mismatch! Transaction signed for chain "@
                + decimal_text(signed_for as nat) + " but RPC is on chain "@ + decimal_text(
                reported as nat,
            ),
            BroadcastError::InvalidRawTransaction => "Failed to decode raw transaction"@,
            BroadcastError::SubmissionFailed => "Failed to send transaction to network"@,
            BroadcastError::TransactionFailed => "Transaction failed"@,
            BroadcastError::Reverted(receipt) => "Transaction reverted in block "@ + decimal_text(
                receipt.block_number as nat,
            ),
            BroadcastError::UnexpectedReply => "Reply does not answer the request"@,
        }
    }

    /// What went wrong, in words.
    pub fn message(&self) -> (r: String)
        ensures
            r@ == self.message_text(),
    {
        match self {
            BroadcastError::ConnectionFailed => String::from_str("Failed to create provider"),
            BroadcastError::ChainIdUnavailable => String::from_str("Failed to fetch chain ID from RPC"),
            BroadcastError::ChainMismatch { signed_for, reported } => join_text(
                "Chain ID mismatch! Transaction signed for chain ",
                decimal(*signed_for).as_str(),
            ).concat(" but RPC is on chain ").concat(decimal(*reported).as_str()),
            BroadcastError::InvalidRawTransaction => String::from_str("Failed to decode raw transaction"),
            BroadcastError::SubmissionFailed => String::from_str("Failed to send transaction to network"),
            BroadcastError::TransactionFailed => String::from_str("Transaction failed"),
            BroadcastError::Reverted(receipt) => join_text(
                "Transaction reverted in block ",
                decimal(receipt.block_number).as_str(),
            ),
            BroadcastError::UnexpectedReply => String::from_str("Reply does not answer the request"),
        }
    }
}

} // verus!
