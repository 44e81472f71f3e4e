//! What a transaction offers for its gas, from what the chain reports.

use crate::descriptor::FeeStrategy;
use vstd::prelude::*;

verus! {

/// The priority fee that every transaction offers: 1.5 gwei, in wei.
pub const PRIORITY_FEE: u64 = 1_500_000_000;

/// The base fee that is taken where the chain's fee history is empty:
/// 1 gwei, in wei.
pub const DEFAULT_BASE_FEE: u64 = 1_000_000_000;

/// The gas limit of a transaction for which none was asked.
pub const DEFAULT_GAS_LIMIT: u64 = 3_000_000;

/// The greatest fee for one unit of gas that is offered over the base fee
/// `base_fee`: twice the base fee and the priority fee.
pub open spec fn max_fee(base_fee: nat) -> nat {
    2 * base_fee + PRIORITY_FEE as nat
}

/// The base fee that a fee history reports: its first entry, or the default
/// where it has none.
pub open spec fn reported_base_fee(history: Seq<u64>) -> u64 {
    if history.len() > 0 {
        history[0]
    } else {
        DEFAULT_BASE_FEE
    }
}

/// The fees of a transaction on a chain with a base fee. `None` where twice
/// the base fee and the priority fee is more than 64 bits hold.
pub fn dynamic_fees(base_fee: u64) -> (r: Option<FeeStrategy>)
    ensures
        max_fee(base_fee as nat) <= u64::MAX ==> r == Some(
            FeeStrategy::Dynamic {
                max_fee_per_gas: max_fee(base_fee as nat) as u64,
                max_priority_fee_per_gas: PRIORITY_FEE,
            },
        ),
        max_fee(base_fee as nat) > u64::MAX ==> r is None,
{
    match base_fee.checked_mul(2) {
        None => None,
        Some(doubled) => match doubled.checked_add(PRIORITY_FEE) {
            None => None,
            Some(max_fee_per_gas) => Some(
                FeeStrategy::Dynamic { max_fee_per_gas, max_priority_fee_per_gas: PRIORITY_FEE },
            ),
        },
    }
}

/// The base fee that a fee history reports.
pub fn base_fee_of(history: &Vec<u64>) -> (r: u64)
    ensures
        r == reported_base_fee(history@),
{
    if history.len() > 0 {
        history[0]
    } else {
        DEFAULT_BASE_FEE
    }
}

/// The gas limit of a transaction: the one asked for, or the default.
pub fn gas_limit_or_default(gas_limit: Option<u64>) -> (r: u64)
    ensures
        r == match gas_limit {
            Some(limit) => limit,
            None => DEFAULT_GAS_LIMIT,
        },
{
    match gas_limit {
        Some(limit) => limit,
        None => DEFAULT_GAS_LIMIT,
    }
}

} // verus!
