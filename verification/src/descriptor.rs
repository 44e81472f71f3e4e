//! The two files that carry a transaction from one step to the next: the
//! transaction before it is signed, and after.

use vstd::prelude::*;

verus! {

/// How a transaction pays for its gas.
#[derive(Debug, Clone, Copy, PartialEq, Eq)]
pub enum FeeStrategy {
    /// One price for each unit of gas.
    Legacy { gas_price: u64 },
    /// A base fee and a priority fee: the most that is paid for one unit of
    /// gas in all, and the most of it that goes to the block's producer.
    Dynamic { max_fee_per_gas: u64, max_priority_fee_per_gas: u64 },
}

/// A transaction that is not signed yet. `to` is absent for a deployment and
/// present for a call; `data` and `value` are written in hexadecimal.
#[derive(Debug, Clone, PartialEq, Eq)]
pub struct UnsignedTransaction {
    pub to: Option<String>,
    pub data: String,
    pub nonce: u64,
    pub gas_limit: u64,
    pub gas_price: Option<u64>,
    pub max_fee_per_gas: Option<u64>,
    pub max_priority_fee_per_gas: Option<u64>,
    pub chain_id: u64,
    pub value: String,
    pub rpc_url: String,
}

/// A signed transaction, ready to be sent. `raw_transaction` holds the signed
/// bytes and `transaction_hash` their Keccak-256 digest, both as `0x` and
/// hexadecimal digits.
#[derive(Debug, Clone, PartialEq, Eq)]
pub struct SignedTransaction {
    pub raw_transaction: String,
    pub transaction_hash: String,
    pub from: String,
    pub to: Option<String>,
    pub nonce: u64,
    pub chain_id: u64,
    pub rpc_url: String,
}

impl FeeStrategy {
    /// The three fee fields of a descriptor that pays in this way: the gas
    /// price, the greatest fee and the greatest priority fee.
    pub open spec fn fields(self) -> (Option<u64>, Option<u64>, Option<u64>) {
        match self {
            FeeStrategy::Legacy { gas_price } => (Some(gas_price), None, None),
            FeeStrategy::Dynamic { max_fee_per_gas, max_priority_fee_per_gas } => (
                None,
                Some(max_fee_per_gas),
                Some(max_priority_fee_per_gas),
            ),
        }
    }
}

impl UnsignedTransaction {
    /// The way in which the transaction pays for gas, where its fee fields
    /// name exactly one: either the gas price alone, or the greatest fee and
    /// the greatest priority fee without a gas price.
    pub open spec fn fees(self) -> Option<FeeStrategy> {
        match (self.gas_price, self.max_fee_per_gas, self.max_priority_fee_per_gas) {
            (Some(gas_price), None, None) => Some(FeeStrategy::Legacy { gas_price }),
            (None, Some(max_fee_per_gas), Some(max_priority_fee_per_gas)) => Some(
                FeeStrategy::Dynamic { max_fee_per_gas, max_priority_fee_per_gas },
            ),
            _ => None,
        }
    }

    /// A descriptor is well formed when it names exactly one way to pay.
    pub open spec fn wf(self) -> bool {
        self.fees() is Some
    }

    /// The way in which the transaction pays for gas, or `None` where the fee
    /// fields name none or more than one.
    pub fn fee_strategy(&self) -> (r: Option<FeeStrategy>)
        ensures
            r == self.fees(),
    {
        match (self.gas_price, self.max_fee_per_gas, self.max_priority_fee_per_gas) {
            (Some(gas_price), None, None) => Some(FeeStrategy::Legacy { gas_price }),
            (None, Some(max_fee_per_gas), Some(max_priority_fee_per_gas)) => Some(
                FeeStrategy::Dynamic { max_fee_per_gas, max_priority_fee_per_gas },
            ),
            _ => None,
        }
    }
}

/// The fee fields of a descriptor name the strategy they were filled from,
/// and never two at once.
pub proof fn lemma_fee_fields_name_one(tx: UnsignedTransaction, fees: FeeStrategy)
    requires
        (tx.gas_price, tx.max_fee_per_gas, tx.max_priority_fee_per_gas) == fees.fields(),
    ensures
        tx.fees() == Some(fees),
        tx.wf(),
        tx.gas_price is Some != tx.max_fee_per_gas is Some,
{
}

} // verus!
