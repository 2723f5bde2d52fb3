//! The L2 fee service dispatcher and the extra-fee facade.
//!
//! The family of L2 fee schemes is a closed sum with one member today,
//! Optimism. A factory classifies a network; the facade returns zero for
//! any chain that is not an L2 variant.

use vstd::prelude::*;
use crate::errors::TransactionError;
use crate::models::{EvmNetwork, EvmTransactionRequest};
use crate::optimism::{spec_extra_fee, OptimismExtraFeeService, OptimismFeeData};
use crate::u256::U256;

verus! {

/// The oracle data an L2 fee scheme works from, tagged by scheme.
#[derive(Debug, Clone, Copy, PartialEq, Eq, Structural)]
pub enum L2FeeData {
    Optimism(OptimismFeeData),
}

/// An L2 fee scheme's calculator, tagged by scheme.
#[derive(Debug, Clone, Copy, PartialEq, Eq, Structural)]
pub enum L2FeeService {
    Optimism(OptimismExtraFeeService),
}

impl L2FeeService {
    /// The fee the scheme charges for `tx`, given the matching oracle data.
    pub fn calculate_fee(&self, fee_data: &L2FeeData, tx: &EvmTransactionRequest) -> (r: Result<
        U256,
        TransactionError,
    >)
        ensures
            *fee_data matches L2FeeData::Optimism(d) ==> (r matches Ok(f) && f.as_nat()
                == spec_extra_fee(d, tx.data_bytes())),
    {
        match self {
            L2FeeService::Optimism(svc) => match fee_data {
                L2FeeData::Optimism(data) => svc.calculate_fee(data, tx),
            },
        }
    }
}

/// Picks the L2 fee scheme for a network: Optimism-family chains get the
/// Optimism calculator, every other chain has no extra fee scheme.
pub fn l2_fee_service_factory(network: &EvmNetwork) -> (r: Option<L2FeeService>)
    ensures
        network.optimism ==> r == Some(L2FeeService::Optimism(OptimismExtraFeeService {  })),
        !network.optimism ==> r is None,
{
    if network.is_optimism() {
        Some(L2FeeService::Optimism(OptimismExtraFeeService::new()))
    } else {
        None
    }
}

/// The uniform entry point for the network extra fee: zero for a chain
/// without an L2 fee scheme, the scheme's fee otherwise.
pub struct NetworkExtraFeeCalculatorService {
    pub network: EvmNetwork,
}

impl NetworkExtraFeeCalculatorService {
    pub fn new(network: EvmNetwork) -> (r: Self)
        ensures
            r.network == network,
    {
        NetworkExtraFeeCalculatorService { network }
    }

    /// Whether the network has an L2 fee scheme at all; when it does, the
    /// caller must fetch the scheme's oracle data before asking for the fee.
    pub fn needs_fee_data(&self) -> (r: bool)
        ensures
            r == self.network.optimism,
    {
        self.network.is_optimism()
    }

    /// The extra fee for `tx`: zero when the network has no L2 fee scheme,
    /// whatever the transaction holds; otherwise the scheme's fee computed
    /// from the fetched oracle data.
    pub fn get_extra_fee(&self, fee_data: Option<&L2FeeData>, tx: &EvmTransactionRequest) -> (r:
        Result<U256, TransactionError>)
        requires
            self.network.optimism ==> fee_data is Some,
        ensures
            !self.network.optimism ==> (r matches Ok(f) && f.as_nat() == 0),
            self.network.optimism ==> ({
                let L2FeeData::Optimism(d) = *fee_data.unwrap();
                r matches Ok(f) && f.as_nat() == spec_extra_fee(d, tx.data_bytes())
            }),
    {
        if let Some(service) = l2_fee_service_factory(&self.network) {
            match fee_data {
                Option::Some(data) => service.calculate_fee(data, tx),
                Option::None => Err(
                    TransactionError::NetworkConfiguration(
                        String::from_str("Missing L2 fee data"),
                    ),
                ),
            }
        } else {
            Ok(U256::zero())
        }
    }
}

} // verus!
