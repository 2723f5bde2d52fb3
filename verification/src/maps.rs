//! The concurrent maps behind the cache, held to contracts over their
//! mathematical contents.
//!
//! The cache keeps its three tables in `dashmap::DashMap` (6.2), a sharded
//! concurrent hash map. Verus does not read that crate, so each table gets
//! an abstraction function naming its contents as a `Map`, and each method
//! the cache calls gets a wrapper whose contract says what the crate's
//! source shows: what `insert` does to the contents, what `get` and
//! `remove` return, and that iteration yields every entry exactly once in
//! no promised order.

use vstd::prelude::*;
use dashmap::DashMap;
use crate::config::GasPriceCacheConfig;
use crate::entry::{GasPriceCacheEntry, GasPriceCacheEntryModel};

verus! {

#[verifier::external_type_specification]
#[verifier::external_body]
#[verifier::reject_recursive_types(K)]
#[verifier::reject_recursive_types(V)]
#[verifier::reject_recursive_types(S)]
pub struct ExDashMap<K, V, S>(DashMap<K, V, S>);

/// The contents of the entry table, keyed by chain id.
pub uninterp spec fn entry_map_view(m: DashMap<u64, GasPriceCacheEntry>) -> Map<
    u64,
    GasPriceCacheEntryModel,
>;

/// The contents of the configuration table, keyed by chain id.
pub uninterp spec fn config_map_view(m: DashMap<u64, GasPriceCacheConfig>) -> Map<
    u64,
    GasPriceCacheConfig,
>;

/// The contents of the in-flight refresh table: chain id to the moment the
/// refresh started, in milliseconds.
pub uninterp spec fn refresh_map_view(m: DashMap<u64, u64>) -> Map<u64, u64>;

/// Relies on dashmap::DashMap::new: a new map is empty.
#[verifier::external_body]
pub(crate) fn entry_map_new() -> (r: DashMap<u64, GasPriceCacheEntry>)
    ensures
        entry_map_view(r) =~= Map::empty(),
{
    DashMap::new()
}

/// Relies on dashmap::DashMap::insert: the key maps to the value afterward.
#[verifier::external_body]
pub(crate) fn entry_map_insert(
    m: &mut DashMap<u64, GasPriceCacheEntry>,
    key: u64,
    value: GasPriceCacheEntry,
)
    ensures
        entry_map_view(*final(m)) == entry_map_view(*old(m)).insert(key, value@),
{
    m.insert(key, value);
}

/// Relies on dashmap::DashMap::get: a present key yields its value, handed
/// back as a copy.
#[verifier::external_body]
pub(crate) fn entry_map_get(m: &DashMap<u64, GasPriceCacheEntry>, key: u64) -> (r: Option<
    GasPriceCacheEntry,
>)
    ensures
        r is Some <==> entry_map_view(*m).contains_key(key),
        r matches Some(e) ==> e@ == entry_map_view(*m)[key],
{
    m.get(&key).map(|e| e.value().clone())
}

/// Relies on dashmap::DashMap::remove: the key is absent afterward, and the
/// result says whether it was present.
#[verifier::external_body]
pub(crate) fn entry_map_remove(m: &mut DashMap<u64, GasPriceCacheEntry>, key: u64) -> (r: bool)
    ensures
        entry_map_view(*final(m)) == entry_map_view(*old(m)).remove(key),
        r == entry_map_view(*old(m)).contains_key(key),
{
    m.remove(&key).is_some()
}

/// Relies on dashmap::DashMap::clear: the map is empty afterward.
#[verifier::external_body]
pub(crate) fn entry_map_clear(m: &mut DashMap<u64, GasPriceCacheEntry>)
    ensures
        entry_map_view(*final(m)) =~= Map::empty(),
{
    m.clear();
}

/// Relies on dashmap::DashMap::len: the number of entries, which is finite.
#[verifier::external_body]
pub(crate) fn entry_map_len(m: &DashMap<u64, GasPriceCacheEntry>) -> (r: usize)
    ensures
        r == entry_map_view(*m).len(),
{
    m.len()
}

/// Relies on dashmap::DashMap::new: a new map is empty.
#[verifier::external_body]
pub(crate) fn config_map_new() -> (r: DashMap<u64, GasPriceCacheConfig>)
    ensures
        config_map_view(r) =~= Map::empty(),
{
    DashMap::new()
}

/// Relies on dashmap::DashMap::insert: the key maps to the value afterward.
#[verifier::external_body]
pub(crate) fn config_map_insert(
    m: &mut DashMap<u64, GasPriceCacheConfig>,
    key: u64,
    value: GasPriceCacheConfig,
)
    ensures
        config_map_view(*final(m)) == config_map_view(*old(m)).insert(key, value),
{
    m.insert(key, value);
}

/// Relies on dashmap::DashMap::get: a present key yields its value.
#[verifier::external_body]
pub(crate) fn config_map_get(m: &DashMap<u64, GasPriceCacheConfig>, key: u64) -> (r: Option<
    GasPriceCacheConfig,
>)
    ensures
        r is Some <==> config_map_view(*m).contains_key(key),
        r matches Some(c) ==> c == config_map_view(*m)[key],
{
    m.get(&key).map(|c| *c.value())
}

/// Relies on dashmap::DashMap::contains_key.
#[verifier::external_body]
pub(crate) fn config_map_contains(m: &DashMap<u64, GasPriceCacheConfig>, key: u64) -> (r: bool)
    ensures
        r == config_map_view(*m).contains_key(key),
{
    m.contains_key(&key)
}

/// Relies on dashmap::DashMap::remove: the key is absent afterward, and the
/// result says whether it was present.
#[verifier::external_body]
pub(crate) fn config_map_remove(m: &mut DashMap<u64, GasPriceCacheConfig>, key: u64) -> (r: bool)
    ensures
        config_map_view(*final(m)) == config_map_view(*old(m)).remove(key),
        r == config_map_view(*old(m)).contains_key(key),
{
    m.remove(&key).is_some()
}

/// Relies on dashmap::DashMap::new: a new map is empty.
#[verifier::external_body]
pub(crate) fn refresh_map_new() -> (r: DashMap<u64, u64>)
    ensures
        refresh_map_view(r) =~= Map::empty(),
{
    DashMap::new()
}

/// Relies on dashmap::DashMap::insert: the key maps to the value afterward,
/// and the previous value, if any, comes back.
#[verifier::external_body]
pub(crate) fn refresh_map_insert(m: &mut DashMap<u64, u64>, key: u64, value: u64) -> (prev: Option<
    u64,
>)
    ensures
        refresh_map_view(*final(m)) == refresh_map_view(*old(m)).insert(key, value),
        prev is Some <==> refresh_map_view(*old(m)).contains_key(key),
        prev matches Some(p) ==> p == refresh_map_view(*old(m))[key],
{
    m.insert(key, value)
}

/// Relies on dashmap::DashMap::remove: the key is absent afterward.
#[verifier::external_body]
pub(crate) fn refresh_map_remove(m: &mut DashMap<u64, u64>, key: u64)
    ensures
        refresh_map_view(*final(m)) == refresh_map_view(*old(m)).remove(key),
{
    m.remove(&key);
}

/// Relies on dashmap::DashMap::iter: every entry appears exactly once, in
/// no promised order.
#[verifier::external_body]
pub(crate) fn refresh_map_pairs(m: &DashMap<u64, u64>) -> (r: Vec<(u64, u64)>)
    ensures
        forall|i: int|
            0 <= i < r@.len() ==> refresh_map_view(*m).contains_key(#[trigger] r@[i].0)
                && refresh_map_view(*m)[r@[i].0] == r@[i].1,
        forall|k: u64|
            refresh_map_view(*m).contains_key(k) ==> exists|i: int|
                0 <= i < r@.len() && (#[trigger] r@[i]).0 == k,
        forall|i: int, j: int| 0 <= i < j < r@.len() ==> r@[i].0 != r@[j].0,
{
    m.iter().map(|e| (*e.key(), *e.value())).collect()
}

} // verus!
