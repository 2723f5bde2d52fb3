//! The fee-history block carried inside a cache entry.
//!
//! The cache never interprets this data; it stores it with a snapshot and
//! hands a copy back to readers. The two ratio series of the source data are
//! fractions; they are carried as raw 64-bit patterns, which the cache
//! neither reads nor produces.

use vstd::prelude::*;

verus! {

/// The mathematical content of a [`FeeHistory`].
#[verifier::ext_equal]
pub struct FeeHistoryModel {
    pub oldest_block: u64,
    pub base_fee_per_gas: Seq<u128>,
    pub gas_used_ratio_bits: Seq<u64>,
    pub reward: Option<Seq<Seq<u128>>>,
    pub base_fee_per_blob_gas: Seq<u128>,
    pub blob_gas_used_ratio_bits: Seq<u64>,
}

/// A block-range fee history: the oldest block covered, the base-fee and
/// blob-base-fee series, the gas-used ratio series (as raw bit patterns)
/// and an optional reward matrix.
#[derive(Debug, Clone, PartialEq, Eq)]
pub struct FeeHistory {
    pub oldest_block: u64,
    pub base_fee_per_gas: Vec<u128>,
    pub gas_used_ratio_bits: Vec<u64>,
    pub reward: Option<Vec<Vec<u128>>>,
    pub base_fee_per_blob_gas: Vec<u128>,
    pub blob_gas_used_ratio_bits: Vec<u64>,
}

impl View for FeeHistory {
    type V = FeeHistoryModel;

    open spec fn view(&self) -> FeeHistoryModel {
        FeeHistoryModel {
            oldest_block: self.oldest_block,
            base_fee_per_gas: self.base_fee_per_gas@,
            gas_used_ratio_bits: self.gas_used_ratio_bits@,
            reward: match self.reward {
                Option::None => Option::None,
                Option::Some(m) => Option::Some(m.deep_view()),
            },
            base_fee_per_blob_gas: self.base_fee_per_blob_gas@,
            blob_gas_used_ratio_bits: self.blob_gas_used_ratio_bits@,
        }
    }
}

} // verus!
