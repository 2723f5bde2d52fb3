//! A cache entry and its freshness state machine.
//!
//! An entry's age against its two thresholds decides whether it is fresh,
//! stale or expired; these predicates are the only freshness oracle in the
//! library, and no other code compares timestamps.

use vstd::prelude::*;
use crate::history::{FeeHistory, FeeHistoryModel};
use crate::l2::L2FeeData;
use crate::clock::now_millis;

verus! {

/// The mathematical content of a [`GasPriceCacheEntry`].
#[verifier::ext_equal]
pub struct GasPriceCacheEntryModel {
    pub gas_price: u128,
    pub base_fee_per_gas: u128,
    pub fee_history: FeeHistoryModel,
    pub l2_fee_data: Option<L2FeeData>,
    pub fetched_at_ms: u64,
    pub stale_after_ms: u64,
    pub expire_after_ms: u64,
}

impl GasPriceCacheEntryModel {
    /// A well-formed entry goes stale strictly before it expires.
    pub open spec fn wf(self) -> bool {
        0 < self.stale_after_ms < self.expire_after_ms
    }

    /// The entry's age at time `now_ms`; a clock that reads earlier than
    /// the fetch time counts as age zero.
    pub open spec fn age_at(self, now_ms: u64) -> nat {
        if now_ms >= self.fetched_at_ms {
            (now_ms - self.fetched_at_ms) as nat
        } else {
            0
        }
    }

    /// Fresh: younger than the staleness threshold.
    pub open spec fn fresh_at(self, now_ms: u64) -> bool {
        self.age_at(now_ms) < self.stale_after_ms
    }

    /// Stale: at or past the staleness threshold, short of expiry.
    pub open spec fn stale_at(self, now_ms: u64) -> bool {
        self.stale_after_ms <= self.age_at(now_ms) < self.expire_after_ms
    }

    /// Expired: at or past the expiry threshold.
    pub open spec fn expired_at(self, now_ms: u64) -> bool {
        self.age_at(now_ms) >= self.expire_after_ms
    }
}

/// One cached gas-price snapshot for a chain, with the clocks that decide
/// its freshness.
#[derive(Debug, Clone, PartialEq, Eq)]
pub struct GasPriceCacheEntry {
    pub gas_price: u128,
    pub base_fee_per_gas: u128,
    pub fee_history: FeeHistory,
    pub l2_fee_data: Option<L2FeeData>,
    /// When the data was fetched, in milliseconds of the cache's clock.
    pub fetched_at_ms: u64,
    /// Age in milliseconds at which the entry becomes stale.
    pub stale_after_ms: u64,
    /// Age in milliseconds at which the entry expires.
    pub expire_after_ms: u64,
}

impl View for GasPriceCacheEntry {
    type V = GasPriceCacheEntryModel;

    open spec fn view(&self) -> GasPriceCacheEntryModel {
        GasPriceCacheEntryModel {
            gas_price: self.gas_price,
            base_fee_per_gas: self.base_fee_per_gas,
            fee_history: self.fee_history@,
            l2_fee_data: self.l2_fee_data,
            fetched_at_ms: self.fetched_at_ms,
            stale_after_ms: self.stale_after_ms,
            expire_after_ms: self.expire_after_ms,
        }
    }
}

impl GasPriceCacheEntry {
    /// Builds an entry fetched at the given time.
    pub fn new_at(
        gas_price: u128,
        base_fee_per_gas: u128,
        fee_history: FeeHistory,
        l2_fee_data: Option<L2FeeData>,
        stale_after_ms: u64,
        expire_after_ms: u64,
        now_ms: u64,
    ) -> (r: GasPriceCacheEntry)
        ensures
            r@ == (GasPriceCacheEntryModel {
                gas_price,
                base_fee_per_gas,
                fee_history: fee_history@,
                l2_fee_data,
                fetched_at_ms: now_ms,
                stale_after_ms,
                expire_after_ms,
            }),
    {
        GasPriceCacheEntry {
            gas_price,
            base_fee_per_gas,
            fee_history,
            l2_fee_data,
            fetched_at_ms: now_ms,
            stale_after_ms,
            expire_after_ms,
        }
    }

    /// Builds an entry stamped with the clock's current reading.
    pub fn new(
        gas_price: u128,
        base_fee_per_gas: u128,
        fee_history: FeeHistory,
        l2_fee_data: Option<L2FeeData>,
        stale_after_ms: u64,
        expire_after_ms: u64,
    ) -> (r: GasPriceCacheEntry)
        ensures
            r.gas_price == gas_price,
            r.base_fee_per_gas == base_fee_per_gas,
            r.fee_history@ == fee_history@,
            r.l2_fee_data == l2_fee_data,
            r.stale_after_ms == stale_after_ms,
            r.expire_after_ms == expire_after_ms,
    {
        let now = now_millis();
        Self::new_at(
            gas_price,
            base_fee_per_gas,
            fee_history,
            l2_fee_data,
            stale_after_ms,
            expire_after_ms,
            now,
        )
    }

    /// The entry's age in milliseconds at the given time.
    pub fn age_at_ms(&self, now_ms: u64) -> (r: u64)
        ensures
            r == self@.age_at(now_ms),
    {
        if now_ms >= self.fetched_at_ms {
            now_ms - self.fetched_at_ms
        } else {
            0
        }
    }

    /// Whether the entry is fresh at the given time.
    pub fn is_fresh_at(&self, now_ms: u64) -> (r: bool)
        ensures
            r == self@.fresh_at(now_ms),
    {
        self.age_at_ms(now_ms) < self.stale_after_ms
    }

    /// Whether the entry is stale but not expired at the given time.
    pub fn is_stale_at(&self, now_ms: u64) -> (r: bool)
        ensures
            r == self@.stale_at(now_ms),
    {
        let age = self.age_at_ms(now_ms);
        self.stale_after_ms <= age && age < self.expire_after_ms
    }

    /// Whether the entry is expired at the given time.
    pub fn is_expired_at(&self, now_ms: u64) -> (r: bool)
        ensures
            r == self@.expired_at(now_ms),
    {
        self.age_at_ms(now_ms) >= self.expire_after_ms
    }

    /// The entry's age against the clock now.
    pub fn age(&self) -> (r: u64)
        ensures
            exists|now_ms: u64| r == self@.age_at(now_ms),
    {
        let now = now_millis();
        self.age_at_ms(now)
    }

    /// Whether the entry is fresh against the clock now.
    pub fn is_fresh(&self) -> (r: bool)
        ensures
            exists|now_ms: u64| r == self@.fresh_at(now_ms),
    {
        let now = now_millis();
        self.is_fresh_at(now)
    }

    /// Whether the entry is stale but not expired against the clock now.
    pub fn is_stale(&self) -> (r: bool)
        ensures
            exists|now_ms: u64| r == self@.stale_at(now_ms),
    {
        let now = now_millis();
        self.is_stale_at(now)
    }

    /// Whether the entry is expired against the clock now.
    pub fn is_expired(&self) -> (r: bool)
        ensures
            exists|now_ms: u64| r == self@.expired_at(now_ms),
    {
        let now = now_millis();
        self.is_expired_at(now)
    }
}

/// At any one time a well-formed entry is in exactly one freshness state:
/// fresh, stale or expired.
pub proof fn lemma_freshness_states_exclusive(e: GasPriceCacheEntryModel, now_ms: u64)
    requires
        e.wf(),
    ensures
        e.fresh_at(now_ms) || e.stale_at(now_ms) || e.expired_at(now_ms),
        e.fresh_at(now_ms) ==> !e.stale_at(now_ms) && !e.expired_at(now_ms),
        e.stale_at(now_ms) ==> !e.fresh_at(now_ms) && !e.expired_at(now_ms),
        e.expired_at(now_ms) ==> !e.fresh_at(now_ms) && !e.stale_at(now_ms),
{
}

} // verus!
