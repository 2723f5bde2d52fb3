//! Plain models of the network and transaction data the gas services read.

use vstd::prelude::*;
use vstd::utf8::encode_utf8;

verus! {

/// The facts about an EVM network that the gas services consult: its chain
/// identifier and whether it belongs to the Optimism family of rollups.
#[derive(Debug, Clone, Copy, PartialEq, Eq, Structural)]
pub struct EvmNetwork {
    /// The 64-bit chain identifier; it keys both configs and cache entries.
    pub chain_id: u64,
    /// Whether the network is classified as an Optimism-family rollup.
    pub optimism: bool,
}

impl EvmNetwork {
    /// Whether the network is an Optimism-family rollup.
    pub fn is_optimism(&self) -> (r: bool)
        ensures
            r == self.optimism,
    {
        self.optimism
    }
}

/// The part of a transaction request that the fee calculator consults: its
/// data field as an optional hex string.
#[derive(Debug, Clone, PartialEq, Eq)]
pub struct EvmTransactionRequest {
    /// The call data as a hex string, with or without a leading `0x`.
    pub data: Option<String>,
}

impl EvmTransactionRequest {
    /// The bytes of the data string; an absent field reads as empty.
    pub open spec fn data_bytes(self) -> Seq<u8> {
        match self.data {
            Option::None => Seq::empty(),
            Option::Some(s) => encode_utf8(s@),
        }
    }
}

} // verus!
