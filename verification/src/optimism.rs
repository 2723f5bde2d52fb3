//! The Optimism L1 data-fee calculator and the oracle wire contract.
//!
//! An Optimism-family rollup charges, on top of the execution fee, for
//! posting the transaction's data to its L1. The charge is computed from six
//! scalars published by the gas-price oracle predeploy and from the
//! transaction's compressed size.

use vstd::prelude::*;
use crate::errors::TransactionError;
use crate::hexutil::{decode_payload, spec_payload};
use crate::models::EvmTransactionRequest;
use crate::u256::{be_bytes_nat, clamp_u256, U256};

verus! {

/// The six scalars read from the gas-price oracle. `base_fee` and
/// `decimals` take no part in the fee formula but are delivered to any
/// consumer that asks for the full snapshot.
#[derive(Debug, Clone, Copy, PartialEq, Eq, Structural)]
pub struct OptimismFeeData {
    pub l1_base_fee: U256,
    pub base_fee: U256,
    pub decimals: U256,
    pub blob_base_fee: U256,
    pub base_fee_scalar: U256,
    pub blob_base_fee_scalar: U256,
}

/// The six nullary oracle calls, one per scalar.
#[derive(Debug, Clone, Copy, PartialEq, Eq, Structural)]
pub enum OracleScalar {
    L1BaseFee,
    BaseFee,
    Decimals,
    BlobBaseFee,
    BaseFeeScalar,
    BlobBaseFeeScalar,
}

/// How many of the bytes of `s` are zero.
pub open spec fn zero_count(s: Seq<u8>) -> nat
    decreases s.len(),
{
    if s.len() == 0 {
        0
    } else {
        zero_count(s.drop_last()) + if s.last() == 0 {
            1nat
        } else {
            0nat
        }
    }
}

pub proof fn lemma_zero_count_le_len(s: Seq<u8>)
    ensures
        zero_count(s) <= s.len(),
    decreases s.len(),
{
    if s.len() > 0 {
        lemma_zero_count_le_len(s.drop_last());
    }
}

/// The cost-weighted size of a payload: four units a zero byte, sixteen a
/// non-zero byte, the sum divided by sixteen, rounding down.
pub open spec fn spec_compressed_size(p: Seq<u8>) -> nat {
    ((zero_count(p) * 4 + (p.len() - zero_count(p)) * 16) / 16) as nat
}

/// The weighted gas price of the fee formula:
/// `16 * base_fee_scalar * l1_base_fee + blob_base_fee_scalar * blob_base_fee`,
/// every product and the sum clamping at the largest 256-bit value.
pub open spec fn spec_weighted_gas_price(d: OptimismFeeData) -> nat {
    clamp_u256(
        clamp_u256(clamp_u256(16 * d.base_fee_scalar.as_nat()) * d.l1_base_fee.as_nat())
            + clamp_u256(d.blob_base_fee_scalar.as_nat() * d.blob_base_fee.as_nat()),
    )
}

/// The L1 data fee for a transaction whose data string has the given bytes.
pub open spec fn spec_extra_fee(d: OptimismFeeData, data: Seq<u8>) -> nat {
    clamp_u256(spec_compressed_size(spec_payload(data)) * spec_weighted_gas_price(d))
}

/// Counts the zero bytes of a payload.
fn count_zero_bytes(p: &Vec<u8>) -> (r: usize)
    ensures
        r == zero_count(p@),
{
    let n: usize = p.len();
    let mut count: usize = 0;
    let mut i: usize = 0;
    proof {
        assert(p@.take(0) =~= Seq::<u8>::empty());
    }
    while i < n
        invariant
            i <= n,
            n == p@.len(),
            count == zero_count(p@.take(i as int)),
            count <= i,
        decreases n - i,
    {
        proof {
            assert(p@.take(i + 1).drop_last() =~= p@.take(i as int));
            assert(p@.take(i + 1).last() == p@[i as int]);
        }
        if p[i] == 0 {
            count = count + 1;
        }
        i = i + 1;
    }
    proof {
        assert(p@.take(n as int) =~= p@);
    }
    count
}

/// Computes the Optimism L1 data fee from the oracle scalars and a
/// transaction's payload.
#[derive(Debug, Clone, Copy, PartialEq, Eq, Structural)]
pub struct OptimismExtraFeeService {
}

impl OptimismExtraFeeService {
    pub fn new() -> (r: Self)
        ensures
            r == (OptimismExtraFeeService {  }),
    {
        OptimismExtraFeeService {  }
    }

    /// The well-known address of the gas-price oracle predeploy, as a hex
    /// string.
    pub fn oracle_address_hex() -> (r: &'static str)
        ensures
            r@ == "0x420000000000000000000000000000000000000F"@,
    {
        "0x420000000000000000000000000000000000000F"
    }

    /// The four-byte function selector of an oracle scalar's accessor.
    pub open spec fn spec_selector(which: OracleScalar) -> Seq<u8> {
        match which {
            OracleScalar::L1BaseFee => seq![81u8, 155u8, 75u8, 211u8],
            OracleScalar::BaseFee => seq![110u8, 242u8, 92u8, 58u8],
            OracleScalar::Decimals => seq![49u8, 60u8, 229u8, 103u8],
            OracleScalar::BlobBaseFee => seq![248u8, 32u8, 97u8, 64u8],
            OracleScalar::BaseFeeScalar => seq![197u8, 152u8, 89u8, 24u8],
            OracleScalar::BlobBaseFeeScalar => seq![104u8, 213u8, 220u8, 166u8],
        }
    }

    /// The four selector bytes of an oracle scalar's accessor.
    pub fn selector(which: OracleScalar) -> (r: [u8; 4])
        ensures
            r@ == Self::spec_selector(which),
    {
        match which {
            OracleScalar::L1BaseFee => [81, 155, 75, 211],
            OracleScalar::BaseFee => [110, 242, 92, 58],
            OracleScalar::Decimals => [49, 60, 229, 103],
            OracleScalar::BlobBaseFee => [248, 32, 97, 64],
            OracleScalar::BaseFeeScalar => [197, 152, 89, 24],
            OracleScalar::BlobBaseFeeScalar => [104, 213, 220, 166],
        }
    }

    /// The call data of an oracle read: exactly the four selector bytes.
    pub fn call_data(which: OracleScalar) -> (r: Vec<u8>)
        ensures
            r@ == Self::spec_selector(which),
    {
        let s = Self::selector(which);
        let mut data: Vec<u8> = Vec::new();
        data.push(s[0]);
        data.push(s[1]);
        data.push(s[2]);
        data.push(s[3]);
        proof {
            assert(data@ =~= Self::spec_selector(which));
        }
        data
    }

    /// Reads an oracle return payload as a big-endian 256-bit word; a
    /// payload longer than 32 bytes is refused.
    pub fn parse_oracle_word(bytes: &[u8]) -> (r: Option<U256>)
        ensures
            bytes@.len() <= 32 ==> (r matches Some(v) && v.as_nat() == be_bytes_nat(bytes@)),
            bytes@.len() > 32 ==> r is None,
    {
        if bytes.len() <= 32 {
            Some(U256::from_be_slice(bytes))
        } else {
            None
        }
    }

    /// The compressed size of a transaction's data: absent or malformed
    /// data counts as empty.
    pub fn calculate_compressed_tx_size(tx: &EvmTransactionRequest) -> (r: U256)
        ensures
            r.as_nat() == spec_compressed_size(spec_payload(tx.data_bytes())),
    {
        let payload: Vec<u8> = match &tx.data {
            Option::Some(s) => decode_payload(s.as_str()),
            Option::None => Vec::new(),
        };
        proof {
            lemma_zero_count_le_len(payload@);
        }
        let z: usize = count_zero_bytes(&payload);
        let nz: usize = payload.len() - z;
        let weighted: u128 = (z as u128) * 4 + (nz as u128) * 16;
        let cs: u128 = weighted / 16;
        U256::from_u128(cs)
    }

    /// The L1 data fee for `tx` given the oracle scalars; products and the
    /// sum saturate at the largest 256-bit value instead of aborting.
    pub fn calculate_fee(&self, fee_data: &OptimismFeeData, tx: &EvmTransactionRequest) -> (r:
        Result<U256, TransactionError>)
        ensures
            r matches Ok(f) && f.as_nat() == spec_extra_fee(*fee_data, tx.data_bytes()),
    {
        let cs = Self::calculate_compressed_tx_size(tx);
        let weighted = U256::from_u64(16).saturating_mul(fee_data.base_fee_scalar).saturating_mul(
            fee_data.l1_base_fee,
        ).saturating_add(fee_data.blob_base_fee_scalar.saturating_mul(fee_data.blob_base_fee));
        Ok(cs.saturating_mul(weighted))
    }
}

} // verus!
