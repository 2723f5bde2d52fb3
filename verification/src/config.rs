//! Per-network configuration: gas-price cache thresholds and the EVM
//! network description with parent/child inheritance.

use vstd::prelude::*;
use crate::errors::ConfigFileError;

verus! {

/// Milliseconds after which a cached gas price is considered stale when the
/// operator does not say otherwise.
pub const DEFAULT_GAS_CACHE_STALE_AFTER_MS: u64 = 20_000;

/// Milliseconds after which a cached gas price expires when the operator does
/// not say otherwise.
pub const DEFAULT_GAS_CACHE_EXPIRE_AFTER_MS: u64 = 45_000;

/// Per-chain settings for the gas-price cache.
#[derive(Debug, Clone, Copy, PartialEq, Eq, Hash, Structural)]
pub struct GasPriceCacheConfig {
    /// Whether caching is switched on for this network.
    pub enabled: bool,
    /// Age in milliseconds after which a cached value becomes stale.
    pub stale_after_ms: u64,
    /// Age in milliseconds after which a cached value expires.
    pub expire_after_ms: u64,
}

impl GasPriceCacheConfig {
    /// A configuration is acceptable when both thresholds are positive and
    /// staleness strictly precedes expiry.
    pub open spec fn is_valid(self) -> bool {
        0 < self.stale_after_ms < self.expire_after_ms
    }

    /// Checks the freshness thresholds; a configuration that would let a
    /// value expire no later than it goes stale is refused.
    pub fn validate(&self) -> (r: Result<(), ConfigFileError>)
        ensures
            r is Ok <==> self.is_valid(),
            self.stale_after_ms == 0 ==> r matches Err(ConfigFileError::InvalidFormat(_)),
            self.stale_after_ms > 0 && self.expire_after_ms == 0 ==> r matches Err(
                ConfigFileError::InvalidFormat(_),
            ),
            self.stale_after_ms > 0 && self.expire_after_ms > 0
                && self.expire_after_ms <= self.stale_after_ms ==> r matches Err(
                ConfigFileError::InvalidFormat(_),
            ),
    {
        if self.stale_after_ms == 0 {
            return Err(
                ConfigFileError::InvalidFormat(
                    String::from_str("Gas price cache stale_after_ms must be greater than zero"),
                ),
            );
        }
        if self.expire_after_ms == 0 {
            return Err(
                ConfigFileError::InvalidFormat(
                    String::from_str("Gas price cache expire_after_ms must be greater than zero"),
                ),
            );
        }
        if self.expire_after_ms <= self.stale_after_ms {
            return Err(
                ConfigFileError::InvalidFormat(
                    String::from_str(
                        "Gas price cache expire_after_ms must be greater than stale_after_ms",
                    ),
                ),
            );
        }
        Ok(())
    }
}

impl Default for GasPriceCacheConfig {
    /// Caching starts disabled, with a 20 s staleness and a 45 s expiry
    /// window; the defaults themselves form a valid configuration.
    fn default() -> (r: Self)
        ensures
            !r.enabled,
            r.stale_after_ms == DEFAULT_GAS_CACHE_STALE_AFTER_MS,
            r.expire_after_ms == DEFAULT_GAS_CACHE_EXPIRE_AFTER_MS,
            r.is_valid(),
    {
        GasPriceCacheConfig {
            enabled: false,
            stale_after_ms: DEFAULT_GAS_CACHE_STALE_AFTER_MS,
            expire_after_ms: DEFAULT_GAS_CACHE_EXPIRE_AFTER_MS,
        }
    }
}

} // verus!
