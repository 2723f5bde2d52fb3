//! The per-chain gas-price cache: stale-while-revalidate reads and
//! single-flight background refresh bookkeeping.
//!
//! Every operation that depends on the current time exists in two forms:
//! one that takes the time as an argument and carries the full contract,
//! and one under the familiar name that reads the clock and delegates.

use vstd::prelude::*;
use dashmap::DashMap;
use crate::clock::now_millis;
use crate::config::GasPriceCacheConfig;
use crate::entry::{GasPriceCacheEntry, GasPriceCacheEntryModel};
use crate::errors::TransactionError;
use crate::history::{FeeHistory, FeeHistoryModel};
use crate::maps::{
    config_map_contains,
    config_map_get,
    config_map_insert,
    config_map_new,
    config_map_remove,
    config_map_view,
    entry_map_clear,
    entry_map_get,
    entry_map_insert,
    entry_map_len,
    entry_map_new,
    entry_map_remove,
    entry_map_view,
    refresh_map_insert,
    refresh_map_new,
    refresh_map_pairs,
    refresh_map_remove,
    refresh_map_view,
};

verus! {

/// How long a refresh marker may sit in the in-flight table before it is
/// treated as abandoned, in seconds.
pub const GAS_PRICE_CACHE_REFRESH_TIMEOUT_SECS: u64 = 60;

/// The same timeout in milliseconds, the unit of the cache's clock.
pub const GAS_PRICE_CACHE_REFRESH_TIMEOUT_MS: u64 = GAS_PRICE_CACHE_REFRESH_TIMEOUT_SECS * 1000;

/// The mathematical content of a [`GasPriceSnapshot`].
#[verifier::ext_equal]
pub struct GasPriceSnapshotModel {
    pub gas_price: u128,
    pub base_fee_per_gas: u128,
    pub fee_history: FeeHistoryModel,
    pub is_stale: bool,
}

/// What a reader gets from the cache: the priced components and whether
/// the entry was already stale when read.
#[derive(Debug, Clone, PartialEq, Eq)]
pub struct GasPriceSnapshot {
    pub gas_price: u128,
    pub base_fee_per_gas: u128,
    pub fee_history: FeeHistory,
    pub is_stale: bool,
}

impl View for GasPriceSnapshot {
    type V = GasPriceSnapshotModel;

    open spec fn view(&self) -> GasPriceSnapshotModel {
        GasPriceSnapshotModel {
            gas_price: self.gas_price,
            base_fee_per_gas: self.base_fee_per_gas,
            fee_history: self.fee_history@,
            is_stale: self.is_stale,
        }
    }
}

/// The content of an optional snapshot.
pub open spec fn snapshot_opt_view(r: Option<GasPriceSnapshot>) -> Option<GasPriceSnapshotModel> {
    match r {
        Option::None => Option::None,
        Option::Some(s) => Option::Some(s@),
    }
}

/// A refresh marker planted at `started_ms` still counts as in flight at
/// `now_ms`; one at least the stuck-refresh timeout old is abandoned.
pub open spec fn marker_live(started_ms: u64, now_ms: u64) -> bool {
    (if now_ms >= started_ms {
        (now_ms - started_ms) as nat
    } else {
        0
    }) < GAS_PRICE_CACHE_REFRESH_TIMEOUT_MS
}

/// The in-flight table after abandoned markers are swept out at `now_ms`.
pub open spec fn swept_refresh_map(m: Map<u64, u64>, now_ms: u64) -> Map<u64, u64> {
    Map::new(|k: u64| m.contains_key(k) && marker_live(m[k], now_ms), |k: u64| m[k])
}

/// Whether a refresh marker is still in flight at `now_ms`.
fn marker_live_exec(started_ms: u64, now_ms: u64) -> (r: bool)
    ensures
        r == marker_live(started_ms, now_ms),
{
    let age: u64 = if now_ms >= started_ms {
        now_ms - started_ms
    } else {
        0
    };
    age < GAS_PRICE_CACHE_REFRESH_TIMEOUT_MS
}

/// The per-chain gas-price cache. One table holds the cached entries, one
/// the per-network configurations, one the in-flight refresh markers.
pub struct GasPriceCache {
    entries: DashMap<u64, GasPriceCacheEntry>,
    network_configs: DashMap<u64, GasPriceCacheConfig>,
    refreshing_networks: DashMap<u64, u64>,
}

impl GasPriceCache {
    /// The cached entries, as a map from chain id to entry content.
    pub closed spec fn entry_map(&self) -> Map<u64, GasPriceCacheEntryModel> {
        entry_map_view(self.entries)
    }

    /// The per-network configurations.
    pub closed spec fn config_map(&self) -> Map<u64, GasPriceCacheConfig> {
        config_map_view(self.network_configs)
    }

    /// The in-flight refresh markers: chain id to start time.
    pub closed spec fn refresh_map(&self) -> Map<u64, u64> {
        refresh_map_view(self.refreshing_networks)
    }

    /// What a reader sees for `chain_id` at `now_ms`: nothing without an
    /// enabled configuration and an unexpired entry; otherwise the entry's
    /// components with its staleness.
    pub open spec fn spec_snapshot(&self, chain_id: u64, now_ms: u64) -> Option<
        GasPriceSnapshotModel,
    > {
        if !self.config_map().contains_key(chain_id) {
            Option::None
        } else if !self.config_map()[chain_id].enabled {
            Option::None
        } else if !self.entry_map().contains_key(chain_id) {
            Option::None
        } else {
            let e = self.entry_map()[chain_id];
            if e.fresh_at(now_ms) || e.stale_at(now_ms) {
                Option::Some(
                    GasPriceSnapshotModel {
                        gas_price: e.gas_price,
                        base_fee_per_gas: e.base_fee_per_gas,
                        fee_history: e.fee_history,
                        is_stale: e.stale_at(now_ms),
                    },
                )
            } else {
                Option::None
            }
        }
    }

    /// A fresh cache with no entries, no configurations and no in-flight
    /// refreshes.
    pub fn new_instance() -> (r: Self)
        ensures
            r.entry_map() == Map::<u64, GasPriceCacheEntryModel>::empty(),
            r.config_map() == Map::<u64, GasPriceCacheConfig>::empty(),
            r.refresh_map() == Map::<u64, u64>::empty(),
    {
        GasPriceCache {
            entries: entry_map_new(),
            network_configs: config_map_new(),
            refreshing_networks: refresh_map_new(),
        }
    }

    /// Installs (or replaces) the configuration for a chain; entries and
    /// refresh markers are untouched.
    pub fn configure_network(&mut self, chain_id: u64, config: GasPriceCacheConfig)
        ensures
            final(self).config_map() == old(self).config_map().insert(chain_id, config),
            final(self).entry_map() == old(self).entry_map(),
            final(self).refresh_map() == old(self).refresh_map(),
    {
        config_map_insert(&mut self.network_configs, chain_id, config);
    }

    /// Whether a chain has a configuration installed.
    pub fn has_configuration_for_network(&self, chain_id: u64) -> (r: bool)
        ensures
            r == self.config_map().contains_key(chain_id),
    {
        config_map_contains(&self.network_configs, chain_id)
    }

    /// Removes a chain's configuration and entry; true iff at least one of
    /// the two was present.
    pub fn remove_network(&mut self, chain_id: u64) -> (r: bool)
        ensures
            final(self).config_map() == old(self).config_map().remove(chain_id),
            final(self).entry_map() == old(self).entry_map().remove(chain_id),
            final(self).refresh_map() == old(self).refresh_map(),
            r == (old(self).config_map().contains_key(chain_id) || old(
                self,
            ).entry_map().contains_key(chain_id)),
    {
        let config_removed = config_map_remove(&mut self.network_configs, chain_id);
        let entry_removed = entry_map_remove(&mut self.entries, chain_id);
        config_removed || entry_removed
    }

    /// What a reader sees for `chain_id` at `now_ms`, exactly as
    /// [`Self::spec_snapshot`] says. Never mutates.
    pub fn get_snapshot_at(&self, chain_id: u64, now_ms: u64) -> (r: Option<GasPriceSnapshot>)
        ensures
            snapshot_opt_view(r) == self.spec_snapshot(chain_id, now_ms),
    {
        let cfg = match config_map_get(&self.network_configs, chain_id) {
            Option::Some(c) => c,
            Option::None => {
                return Option::None;
            },
        };
        if !cfg.enabled {
            return Option::None;
        }
        let entry = match entry_map_get(&self.entries, chain_id) {
            Option::Some(e) => e,
            Option::None => {
                return Option::None;
            },
        };
        if entry.is_fresh_at(now_ms) || entry.is_stale_at(now_ms) {
            let stale = entry.is_stale_at(now_ms);
            let snapshot = GasPriceSnapshot {
                gas_price: entry.gas_price,
                base_fee_per_gas: entry.base_fee_per_gas,
                fee_history: entry.fee_history,
                is_stale: stale,
            };
            proof {
                assert(snapshot@ =~= self.spec_snapshot(chain_id, now_ms).unwrap());
            }
            Option::Some(snapshot)
        } else {
            Option::None
        }
    }

    /// What a reader sees for `chain_id` against the clock now.
    pub fn get_snapshot(&self, chain_id: u64) -> (r: Option<GasPriceSnapshot>)
        ensures
            exists|now_ms: u64| snapshot_opt_view(r) == self.spec_snapshot(chain_id, now_ms),
    {
        let now = now_millis();
        let r = self.get_snapshot_at(chain_id, now);
        proof {
            assert(snapshot_opt_view(r) == self.spec_snapshot(chain_id, now));
        }
        r
    }

    /// Stores a snapshot for `chain_id`, stamped `now_ms`, using the
    /// configured thresholds; without an enabled configuration the call
    /// changes nothing.
    pub fn set_snapshot_at(
        &mut self,
        chain_id: u64,
        gas_price: u128,
        base_fee_per_gas: u128,
        fee_history: FeeHistory,
        now_ms: u64,
    )
        ensures
            final(self).config_map() == old(self).config_map(),
            final(self).refresh_map() == old(self).refresh_map(),
            (!old(self).config_map().contains_key(chain_id) || !old(self).config_map()[chain_id].enabled) ==> final(self).entry_map() == old(self).entry_map(),
            old(self).config_map().contains_key(chain_id) && old(self).config_map()[chain_id].enabled ==> final(self).entry_map() == old(self).entry_map().insert(
                chain_id,
                GasPriceCacheEntryModel {
                    gas_price,
                    base_fee_per_gas,
                    fee_history: fee_history@,
                    l2_fee_data: Option::None,
                    fetched_at_ms: now_ms,
                    stale_after_ms: old(self).config_map()[chain_id].stale_after_ms,
                    expire_after_ms: old(self).config_map()[chain_id].expire_after_ms,
                },
            ),
    {
        let cfg = match config_map_get(&self.network_configs, chain_id) {
            Option::Some(c) => c,
            Option::None => {
                return ;
            },
        };
        if !cfg.enabled {
            return ;
        }
        let entry = GasPriceCacheEntry::new_at(
            gas_price,
            base_fee_per_gas,
            fee_history,
            Option::None,
            cfg.stale_after_ms,
            cfg.expire_after_ms,
            now_ms,
        );
        entry_map_insert(&mut self.entries, chain_id, entry);
    }

    /// Stores a snapshot stamped with the clock's current reading.
    pub fn set_snapshot(
        &mut self,
        chain_id: u64,
        gas_price: u128,
        base_fee_per_gas: u128,
        fee_history: FeeHistory,
    )
        ensures
            final(self).config_map() == old(self).config_map(),
            final(self).refresh_map() == old(self).refresh_map(),
            (!old(self).config_map().contains_key(chain_id) || !old(self).config_map()[chain_id].enabled) ==> final(self).entry_map() == old(self).entry_map(),
            old(self).config_map().contains_key(chain_id) && old(self).config_map()[chain_id].enabled ==> exists|now_ms: u64|
                final(self).entry_map() == old(self).entry_map().insert(
                    chain_id,
                    GasPriceCacheEntryModel {
                        gas_price,
                        base_fee_per_gas,
                        fee_history: fee_history@,
                        l2_fee_data: Option::None,
                        fetched_at_ms: now_ms,
                        stale_after_ms: old(self).config_map()[chain_id].stale_after_ms,
                        expire_after_ms: old(self).config_map()[chain_id].expire_after_ms,
                    },
                ),
    {
        let now = now_millis();
        self.set_snapshot_at(chain_id, gas_price, base_fee_per_gas, fee_history, now);
    }

    /// The full cached entry for a chain, whatever its freshness; a copy is
    /// handed back. Never mutates.
    pub fn get(&self, chain_id: u64) -> (r: Option<GasPriceCacheEntry>)
        ensures
            r is Some <==> self.entry_map().contains_key(chain_id),
            r matches Some(e) ==> e@ == self.entry_map()[chain_id],
    {
        entry_map_get(&self.entries, chain_id)
    }

    /// Replaces the entry for a chain unconditionally; the configuration's
    /// enable flag is not consulted.
    pub fn set(&mut self, chain_id: u64, entry: GasPriceCacheEntry)
        ensures
            final(self).entry_map() == old(self).entry_map().insert(chain_id, entry@),
            final(self).config_map() == old(self).config_map(),
            final(self).refresh_map() == old(self).refresh_map(),
    {
        entry_map_insert(&mut self.entries, chain_id, entry);
    }

    /// Applies `updater` to the entry for a chain; an absent chain yields a
    /// NetworkConfiguration error and changes nothing.
    pub fn update<F: FnOnce(GasPriceCacheEntry) -> GasPriceCacheEntry>(
        &mut self,
        chain_id: u64,
        updater: F,
    ) -> (r: Result<(), TransactionError>)
        requires
            forall|e: GasPriceCacheEntry| #[trigger] updater.requires((e,)),
        ensures
            final(self).config_map() == old(self).config_map(),
            final(self).refresh_map() == old(self).refresh_map(),
            !old(self).entry_map().contains_key(chain_id) ==> r is Err && final(self).entry_map()
                == old(self).entry_map(),
            old(self).entry_map().contains_key(chain_id) ==> r is Ok && exists|
                e1: GasPriceCacheEntry,
                e2: GasPriceCacheEntry,
            |
                {
                    &&& e1@ == old(self).entry_map()[chain_id]
                    &&& #[trigger] updater.ensures((e1,), e2)
                    &&& final(self).entry_map() == old(self).entry_map().insert(chain_id, e2@)
                },
    {
        match entry_map_get(&self.entries, chain_id) {
            Option::Some(entry) => {
                let updated = updater(entry);
                entry_map_insert(&mut self.entries, chain_id, updated);
                Ok(())
            },
            Option::None => Err(
                TransactionError::NetworkConfiguration(String::from_str("Cache entry not found")),
            ),
        }
    }

    /// Removes a chain's entry, keeping its configuration.
    pub fn remove(&mut self, chain_id: u64) -> (r: Option<()>)
        ensures
            final(self).entry_map() == old(self).entry_map().remove(chain_id),
            final(self).config_map() == old(self).config_map(),
            final(self).refresh_map() == old(self).refresh_map(),
            r is Some <==> old(self).entry_map().contains_key(chain_id),
    {
        if entry_map_remove(&mut self.entries, chain_id) {
            Option::Some(())
        } else {
            Option::None
        }
    }

    /// Removes every entry, keeping all configurations.
    pub fn clear(&mut self)
        ensures
            final(self).entry_map() == Map::<u64, GasPriceCacheEntryModel>::empty(),
            final(self).config_map() == old(self).config_map(),
            final(self).refresh_map() == old(self).refresh_map(),
    {
        entry_map_clear(&mut self.entries);
    }

    /// How many chains have a cached entry.
    pub fn len(&self) -> (r: usize)
        ensures
            r == self.entry_map().len(),
    {
        entry_map_len(&self.entries)
    }

    /// Whether no chain has a cached entry.
    pub fn is_empty(&self) -> (r: bool)
        ensures
            r == (self.entry_map().len() == 0),
    {
        self.len() == 0
    }

    /// Sweeps abandoned refresh markers, then claims the refresh slot for
    /// `chain_id`: true means the slot was free and the caller should run
    /// the refresh; false means one is already in flight.
    pub fn try_begin_refresh(&mut self, chain_id: u64, now_ms: u64) -> (claimed: bool)
        ensures
            final(self).refresh_map() == swept_refresh_map(
                old(self).refresh_map(),
                now_ms,
            ).insert(chain_id, now_ms),
            claimed == !swept_refresh_map(old(self).refresh_map(), now_ms).contains_key(chain_id),
            final(self).entry_map() == old(self).entry_map(),
            final(self).config_map() == old(self).config_map(),
    {
        let ghost m0: Map<u64, u64> = self.refresh_map();
        let pairs = refresh_map_pairs(&self.refreshing_networks);
        let n: usize = pairs.len();
        let mut i: usize = 0;
        while i < n
            invariant
                i <= n,
                n == pairs@.len(),
                forall|j: int|
                    0 <= j < n ==> m0.contains_key(#[trigger] pairs@[j].0) && m0[pairs@[j].0]
                        == pairs@[j].1,
                forall|k: u64|
                    m0.contains_key(k) ==> exists|j: int|
                        0 <= j < n && (#[trigger] pairs@[j]).0 == k,
                forall|k: u64|
                    #[trigger] refresh_map_view(self.refreshing_networks).contains_key(k)
                        ==> m0.contains_key(k) && refresh_map_view(self.refreshing_networks)[k]
                        == m0[k],
                forall|k: u64|
                    m0.contains_key(k) && marker_live(m0[k], now_ms)
                        ==> #[trigger] refresh_map_view(self.refreshing_networks).contains_key(k),
                forall|j: int|
                    0 <= j < i ==> marker_live((#[trigger] pairs@[j]).1, now_ms)
                        || !refresh_map_view(self.refreshing_networks).contains_key(pairs@[j].0),
                entry_map_view(self.entries) == old(self).entry_map(),
                config_map_view(self.network_configs) == old(self).config_map(),
            decreases n - i,
        {
            let (k, started) = pairs[i];
            if !marker_live_exec(started, now_ms) {
                refresh_map_remove(&mut self.refreshing_networks, k);
            }
            i = i + 1;
        }
        proof {
            assert(refresh_map_view(self.refreshing_networks) =~= swept_refresh_map(m0, now_ms));
        }
        let prev = refresh_map_insert(&mut self.refreshing_networks, chain_id, now_ms);
        prev.is_none()
    }

    /// Releases the refresh slot for `chain_id`; a refresh must always do
    /// this when it finishes, whether it succeeded or failed.
    pub fn finish_refresh(&mut self, chain_id: u64)
        ensures
            final(self).refresh_map() == old(self).refresh_map().remove(chain_id),
            final(self).entry_map() == old(self).entry_map(),
            final(self).config_map() == old(self).config_map(),
    {
        refresh_map_remove(&mut self.refreshing_networks, chain_id);
    }
}

/// Law: after `configure_network(chain_id, config)` — which leaves the
/// configuration table at `configs.insert(chain_id, config)` —
/// `has_configuration_for_network(chain_id)` reports true.
pub proof fn lemma_configure_network_visible(
    configs: Map<u64, GasPriceCacheConfig>,
    chain_id: u64,
    config: GasPriceCacheConfig,
)
    ensures
        configs.insert(chain_id, config).contains_key(chain_id),
{
}

/// Law: after `set(chain_id, entry)` — which leaves the entry table at
/// `entries.insert(chain_id, entry@)` — `get(chain_id)` yields an entry
/// with the same content, its gas price included.
pub proof fn lemma_set_then_get(
    entries: Map<u64, GasPriceCacheEntryModel>,
    chain_id: u64,
    entry: GasPriceCacheEntryModel,
)
    ensures
        entries.insert(chain_id, entry).contains_key(chain_id),
        entries.insert(chain_id, entry)[chain_id] == entry,
        entries.insert(chain_id, entry)[chain_id].gas_price == entry.gas_price,
{
}

/// Law: after `clear()` the entry table is empty, so `is_empty()` reports
/// true, whatever was set before.
pub proof fn lemma_clear_then_empty()
    ensures
        Map::<u64, GasPriceCacheEntryModel>::empty().len() == 0,
{
}

/// Law: `remove_network` is idempotent past a first call that returned
/// true: the first call leaves both tables without the chain, so a second
/// call, finding nothing, returns false.
pub proof fn lemma_remove_network_idempotent(
    configs: Map<u64, GasPriceCacheConfig>,
    entries: Map<u64, GasPriceCacheEntryModel>,
    chain_id: u64,
)
    ensures
        !(configs.remove(chain_id).contains_key(chain_id) || entries.remove(
            chain_id,
        ).contains_key(chain_id)),
{
}

/// Law: at most one refresh per chain is in flight at a time. A
/// `try_begin_refresh` that claimed the slot at `t0` leaves the marker
/// `(chain_id, t0)`; a second call at any `t1` within the stuck-refresh
/// timeout finds that marker alive after its own sweep, and so reports
/// false and schedules nothing.
pub proof fn lemma_single_flight(m: Map<u64, u64>, chain_id: u64, t0: u64, t1: u64)
    requires
        t0 <= t1,
        t1 - t0 < GAS_PRICE_CACHE_REFRESH_TIMEOUT_MS,
    ensures
        swept_refresh_map(swept_refresh_map(m, t0).insert(chain_id, t0), t1).contains_key(
            chain_id,
        ),
{
}

/// Law: a refresh marker older than the stuck-refresh timeout is swept, so
/// a `try_begin_refresh` after the timeout claims the slot again.
pub proof fn lemma_stuck_refresh_swept(m: Map<u64, u64>, chain_id: u64, t0: u64, t1: u64)
    requires
        m.contains_key(chain_id),
        m[chain_id] == t0,
        t0 <= t1,
        t1 - t0 >= GAS_PRICE_CACHE_REFRESH_TIMEOUT_MS,
    ensures
        !swept_refresh_map(m, t1).contains_key(chain_id),
{
}

/// Law: a snapshot stored through `set_snapshot_at` under an enabled,
/// valid configuration is immediately readable: `get_snapshot_at` at the
/// same instant yields exactly the stored components, not yet stale.
pub proof fn lemma_set_snapshot_then_get_snapshot(
    pre: GasPriceCache,
    post: GasPriceCache,
    chain_id: u64,
    gas_price: u128,
    base_fee_per_gas: u128,
    fee_history: FeeHistoryModel,
    now_ms: u64,
)
    requires
        pre.config_map().contains_key(chain_id),
        pre.config_map()[chain_id].enabled,
        pre.config_map()[chain_id].is_valid(),
        post.config_map() == pre.config_map(),
        post.entry_map() == pre.entry_map().insert(
            chain_id,
            GasPriceCacheEntryModel {
                gas_price,
                base_fee_per_gas,
                fee_history,
                l2_fee_data: Option::None,
                fetched_at_ms: now_ms,
                stale_after_ms: pre.config_map()[chain_id].stale_after_ms,
                expire_after_ms: pre.config_map()[chain_id].expire_after_ms,
            },
        ),
    ensures
        post.spec_snapshot(chain_id, now_ms) == Option::Some(
            GasPriceSnapshotModel { gas_price, base_fee_per_gas, fee_history, is_stale: false },
        ),
{
    let e = post.entry_map()[chain_id];
    assert(e.age_at(now_ms) == 0);
    assert(e.fresh_at(now_ms));
    assert(post.spec_snapshot(chain_id, now_ms).unwrap() =~= GasPriceSnapshotModel {
        gas_price,
        base_fee_per_gas,
        fee_history,
        is_stale: false,
    });
}

/// Law: under a configuration with `enabled` false a reader sees nothing,
/// whatever entry the table holds — even one placed by `set`, which does
/// not consult the flag.
pub proof fn lemma_disabled_config_reads_none(cache: GasPriceCache, chain_id: u64, now_ms: u64)
    requires
        cache.config_map().contains_key(chain_id),
        !cache.config_map()[chain_id].enabled,
    ensures
        cache.spec_snapshot(chain_id, now_ms) is None,
{
}

} // verus!
