//! The 256-bit arithmetic, the transaction payload decoding, and the
//! Optimism L1 data-fee formula.

use gas_price_core::l2::{
    l2_fee_service_factory,
    L2FeeData,
    L2FeeService,
    NetworkExtraFeeCalculatorService,
};
use gas_price_core::models::{EvmNetwork, EvmTransactionRequest};
use gas_price_core::optimism::{OptimismExtraFeeService, OptimismFeeData, OracleScalar};
use gas_price_core::u256::U256;

fn tx_with_data(data: &str) -> EvmTransactionRequest {
    EvmTransactionRequest {
        data: Some(data.to_string()),
    }
}

fn oracle_data(
    l1_base_fee: u64,
    base_fee_scalar: u64,
    blob_base_fee: u64,
    blob_base_fee_scalar: u64,
) -> OptimismFeeData {
    OptimismFeeData {
        l1_base_fee: U256::from_u64(l1_base_fee),
        base_fee: U256::from_u64(100_000_000),
        decimals: U256::from_u64(6),
        blob_base_fee: U256::from_u64(blob_base_fee),
        base_fee_scalar: U256::from_u64(base_fee_scalar),
        blob_base_fee_scalar: U256::from_u64(blob_base_fee_scalar),
    }
}

#[test]
fn test_u256_arithmetic() {
    assert_eq!(U256::zero(), U256::from_u64(0));
    assert_eq!(
        U256::from_u64(6).saturating_mul(U256::from_u64(7)),
        U256::from_u64(42)
    );
    assert_eq!(
        U256::from_u64(5).saturating_add(U256::from_u64(8)),
        U256::from_u64(13)
    );
    // A product of two 128-bit values lands in the upper limbs exactly.
    let big = U256::from_u128(u128::MAX);
    let four = U256::from_u64(4);
    let expected = U256 {
        l0: u64::MAX - 3,
        l1: u64::MAX,
        l2: 3,
        l3: 0,
    };
    assert_eq!(big.saturating_mul(four), expected);
    // Saturation clamps instead of wrapping or aborting.
    assert_eq!(
        U256::max_value().saturating_mul(U256::from_u64(2)),
        U256::max_value()
    );
    assert_eq!(
        U256::max_value().saturating_add(U256::from_u64(1)),
        U256::max_value()
    );
    assert_eq!(
        U256::max_value().saturating_mul(U256::from_u64(1)),
        U256::max_value()
    );
}

#[test]
fn test_u256_from_be_slice() {
    assert_eq!(U256::from_be_slice(&[]), U256::zero());
    assert_eq!(U256::from_be_slice(&[0x01, 0x02]), U256::from_u64(0x0102));
    // Left-padding: a short payload reads the same as a padded one.
    assert_eq!(
        U256::from_be_slice(&[0x00, 0x00, 0x01, 0x02]),
        U256::from_be_slice(&[0x01, 0x02])
    );
    let mut word = [0u8; 32];
    word[31] = 0x2a;
    assert_eq!(U256::from_be_slice(&word), U256::from_u64(42));
    let mut high = [0u8; 32];
    high[0] = 0x01;
    assert_eq!(
        U256::from_be_slice(&high),
        U256 {
            l0: 0,
            l1: 0,
            l2: 0,
            l3: 0x0100_0000_0000_0000,
        }
    );
}

#[test]
fn test_oracle_selectors() {
    assert_eq!(
        OptimismExtraFeeService::selector(OracleScalar::L1BaseFee),
        [81, 155, 75, 211]
    );
    assert_eq!(
        OptimismExtraFeeService::selector(OracleScalar::BaseFee),
        [110, 242, 92, 58]
    );
    assert_eq!(
        OptimismExtraFeeService::selector(OracleScalar::Decimals),
        [49, 60, 229, 103]
    );
    assert_eq!(
        OptimismExtraFeeService::selector(OracleScalar::BlobBaseFee),
        [248, 32, 97, 64]
    );
    assert_eq!(
        OptimismExtraFeeService::selector(OracleScalar::BaseFeeScalar),
        [197, 152, 89, 24]
    );
    assert_eq!(
        OptimismExtraFeeService::selector(OracleScalar::BlobBaseFeeScalar),
        [104, 213, 220, 166]
    );
    assert_eq!(
        OptimismExtraFeeService::call_data(OracleScalar::L1BaseFee),
        vec![81, 155, 75, 211]
    );
    assert_eq!(
        OptimismExtraFeeService::oracle_address_hex(),
        "0x420000000000000000000000000000000000000F"
    );
}

#[test]
fn test_parse_oracle_word() {
    assert_eq!(
        OptimismExtraFeeService::parse_oracle_word(&[0x01, 0x00]),
        Some(U256::from_u64(256))
    );
    assert!(OptimismExtraFeeService::parse_oracle_word(&[0u8; 33]).is_none());
}

#[test]
fn test_compressed_size_of_data_shapes() {
    // Absent data and empty data compress to zero.
    let absent = EvmTransactionRequest { data: None };
    assert_eq!(
        OptimismExtraFeeService::calculate_compressed_tx_size(&absent),
        U256::zero()
    );
    assert_eq!(
        OptimismExtraFeeService::calculate_compressed_tx_size(&tx_with_data("0x")),
        U256::zero()
    );
    // Eight zero bytes: 8*4/16 = 2.
    assert_eq!(
        OptimismExtraFeeService::calculate_compressed_tx_size(&tx_with_data(
            "0x0000000000000000"
        )),
        U256::from_u64(2)
    );
    // Eight non-zero bytes: 8*16/16 = 8.
    assert_eq!(
        OptimismExtraFeeService::calculate_compressed_tx_size(&tx_with_data(
            "0x1111111111111111"
        )),
        U256::from_u64(8)
    );
    // Mixed: (8*4 + 8*16)/16 = 10.
    assert_eq!(
        OptimismExtraFeeService::calculate_compressed_tx_size(&tx_with_data(
            "0x00000000000000001111111111111111"
        )),
        U256::from_u64(10)
    );
    // The marker is optional, repeated markers are all stripped, and
    // upper-case digits decode too.
    assert_eq!(
        OptimismExtraFeeService::calculate_compressed_tx_size(&tx_with_data("FF")),
        U256::from_u64(1)
    );
    assert_eq!(
        OptimismExtraFeeService::calculate_compressed_tx_size(&tx_with_data("0x0xAB")),
        U256::from_u64(1)
    );
    // Malformed hex counts as an empty payload.
    assert_eq!(
        OptimismExtraFeeService::calculate_compressed_tx_size(&tx_with_data("0x123")),
        U256::zero()
    );
    assert_eq!(
        OptimismExtraFeeService::calculate_compressed_tx_size(&tx_with_data("0xzz")),
        U256::zero()
    );
}

#[test]
fn test_optimism_extra_fee_formula() {
    // Oracle: l1_base_fee = 1e9, base_fee_scalar = 684000, blob parts
    // negligible; tx data: eight zero and eight non-zero bytes.
    let data = oracle_data(1_000_000_000, 684_000, 1, 0);
    let tx = tx_with_data("0x00000000000000001111111111111111");
    let svc = OptimismExtraFeeService::new();

    // Compressed size (8*4 + 8*16)/16 = 10; weighted price
    // 16 * 684000 * 1e9 + 0 * 1 = 1.0944e16; extra = 1.0944e17.
    let fee = svc.calculate_fee(&data, &tx).unwrap();
    assert_eq!(fee, U256::from_u128(109_440_000_000_000_000));
}

#[test]
fn test_blob_component_contributes() {
    let data = oracle_data(0, 0, 5, 3);
    let tx = tx_with_data("0xff");
    let svc = OptimismExtraFeeService::new();
    // Compressed size 1; weighted = 16*0*0 + 3*5 = 15.
    let fee = svc.calculate_fee(&data, &tx).unwrap();
    assert_eq!(fee, U256::from_u64(15));
}

#[test]
fn test_l2_fee_service_dispatch() {
    let optimism = EvmNetwork {
        chain_id: 10,
        optimism: true,
    };
    let mainnet = EvmNetwork {
        chain_id: 1,
        optimism: false,
    };
    assert!(matches!(
        l2_fee_service_factory(&optimism),
        Some(L2FeeService::Optimism(_))
    ));
    assert!(l2_fee_service_factory(&mainnet).is_none());

    let service = l2_fee_service_factory(&optimism).unwrap();
    let data = L2FeeData::Optimism(oracle_data(1_000_000_000, 684_000, 1, 0));
    let tx = tx_with_data("0x00000000000000001111111111111111");
    let fee = service.calculate_fee(&data, &tx).unwrap();
    assert_eq!(fee, U256::from_u128(109_440_000_000_000_000));
}

#[test]
fn test_non_l2_chain_has_zero_extra_fee() {
    let mainnet = EvmNetwork {
        chain_id: 1,
        optimism: false,
    };
    let facade = NetworkExtraFeeCalculatorService::new(mainnet);
    assert!(!facade.needs_fee_data());

    // Whatever the transaction carries, the extra fee is zero.
    let fee = facade
        .get_extra_fee(None, &tx_with_data("0x1111111111111111"))
        .unwrap();
    assert_eq!(fee, U256::zero());
    let fee2 = facade.get_extra_fee(None, &EvmTransactionRequest { data: None }).unwrap();
    assert_eq!(fee2, U256::zero());
}

#[test]
fn test_optimism_chain_uses_fetched_data() {
    let optimism = EvmNetwork {
        chain_id: 10,
        optimism: true,
    };
    let facade = NetworkExtraFeeCalculatorService::new(optimism);
    assert!(facade.needs_fee_data());

    let data = L2FeeData::Optimism(oracle_data(1_000_000_000, 684_000, 1, 0));
    let fee = facade
        .get_extra_fee(Some(&data), &tx_with_data("0x00000000000000001111111111111111"))
        .unwrap();
    assert_eq!(fee, U256::from_u128(109_440_000_000_000_000));
}
