//! Trusted boundary around the concurrent collections that hold the tracker's
//! mutable state: `dashmap` maps and sets, and `moka` time-expiring caches.
//!
//! Each collection's contents are named by an uninterpreted spec function, and
//! every method the library calls goes through a wrapper whose contract states,
//! over that name, what the collection's own source shows. The `moka` caches
//! expire entries by wall-clock time, so their contracts only ever let the
//! contents shrink to a submap: no wrapper promises that an entry written or
//! read earlier is still there later, only that a write or a hit leaves its
//! own entry live as the call returns.
use vstd::prelude::*;

use crate::path_identifier::PathIdentifier;

verus! {

#[verifier::external_type_specification]
#[verifier::external_body]
#[verifier::reject_recursive_types(K)]
#[verifier::reject_recursive_types(V)]
#[verifier::reject_recursive_types(S)]
pub struct ExDashMap<K, V, S>(dashmap::DashMap<K, V, S>);

#[verifier::external_type_specification]
#[verifier::external_body]
#[verifier::reject_recursive_types(K)]
#[verifier::reject_recursive_types(S)]
pub struct ExDashSet<K, S>(dashmap::DashSet<K, S>);

#[verifier::external_type_specification]
#[verifier::external_body]
#[verifier::reject_recursive_types(K)]
#[verifier::reject_recursive_types(V)]
#[verifier::reject_recursive_types(S)]
pub struct ExMokaCache<K, V, S>(moka::sync::Cache<K, V, S>);

/// What one path's backlog holds: pending sequence number -> unix timestamp.
pub uninterp spec fn sequence_map_model(m: dashmap::DashMap<u64, u64>) -> Map<u64, u64>;

/// What the whole backlog index holds: path view -> that path's backlog model.
pub uninterp spec fn path_table_model(
    t: dashmap::DashMap<PathIdentifier, dashmap::DashMap<u64, u64>>,
) -> Map<(Seq<char>, Seq<char>, Seq<char>), Map<u64, u64>>;

/// What the visible-fee-address set holds.
pub uninterp spec fn address_set_model(s: dashmap::DashSet<String>) -> Set<Seq<char>>;

/// What a time-expiring cache holds: key -> stored value, restricted to the
/// entries that are still live at the moment the wrapper returns.
pub uninterp spec fn cache_model(c: moka::sync::Cache<String, u64>) -> Map<Seq<char>, u64>;

/// Whether the cache was built with positive time-to-live and time-to-idle.
/// Only such a cache keeps a written entry live past the write itself: with a
/// zero lifetime an entry is expired the instant it is written.
pub uninterp spec fn cache_keeps_writes(c: moka::sync::Cache<String, u64>) -> bool;

/// Relies on dashmap::DashMap::new: a freshly built map is empty.
#[verifier::external_body]
pub(crate) fn sequence_map_new(capacity: usize) -> (r: dashmap::DashMap<u64, u64>)
    ensures
        (sequence_map_model(r) == Map::<u64, u64>::empty()),
{
    dashmap::DashMap::with_capacity(capacity)
}

/// Relies on dashmap::DashMap::insert: the key now maps to the given value and
/// no other entry changes.
#[verifier::external_body]
pub(crate) fn sequence_map_insert(m: &mut dashmap::DashMap<u64, u64>, key: u64, value: u64)
    ensures
        sequence_map_model(*final(m)) == sequence_map_model(*old(m)).insert(key, value),
{
    m.insert(key, value);
}

/// Relies on dashmap::DashMap::remove: the entry for the key is gone, nothing
/// else changes, and the removed value is returned when the key was present.
#[verifier::external_body]
pub(crate) fn sequence_map_remove(m: &mut dashmap::DashMap<u64, u64>, key: u64) -> (r: Option<
    u64,
>)
    ensures
        sequence_map_model(*final(m)) == sequence_map_model(*old(m)).remove(key),
        r == (if sequence_map_model(*old(m)).dom().contains(key) {
            Some(sequence_map_model(*old(m))[key])
        } else {
            None::<u64>
        }),
{
    m.remove(&key).map(|kv| kv.1)
}

/// Relies on dashmap::DashMap::iter visiting every entry exactly once: the
/// returned vector holds each key of the map once, in no promised order.
#[verifier::external_body]
pub(crate) fn sequence_map_keys(m: &dashmap::DashMap<u64, u64>) -> (r: Vec<u64>)
    ensures
        r@.no_duplicates(),
        forall|k: u64| r@.contains(k) <==> sequence_map_model(*m).dom().contains(k),
{
    m.iter().map(|e| *e.key()).collect()
}

/// Relies on dashmap::DashMap::new: a freshly built index is empty.
#[verifier::external_body]
pub(crate) fn path_table_new() -> (r: dashmap::DashMap<
    PathIdentifier,
    dashmap::DashMap<u64, u64>,
>)
    ensures
        (path_table_model(r) == Map::<(Seq<char>, Seq<char>, Seq<char>), Map<u64, u64>>::empty()),
{
    dashmap::DashMap::new()
}

/// Relies on dashmap::DashMap::remove: takes the path's backlog out of the
/// index, returning it when the path was tracked.
#[verifier::external_body]
pub(crate) fn path_table_take(
    t: &mut dashmap::DashMap<PathIdentifier, dashmap::DashMap<u64, u64>>,
    path: &PathIdentifier,
) -> (r: Option<dashmap::DashMap<u64, u64>>)
    ensures
        path_table_model(*final(t)) == path_table_model(*old(t)).remove(path@),
        r matches Some(m) ==> path_table_model(*old(t)).dom().contains(path@)
            && sequence_map_model(m) == path_table_model(*old(t))[path@],
        r is None ==> !path_table_model(*old(t)).dom().contains(path@),
{
    t.remove(path).map(|kv| kv.1)
}

/// Relies on dashmap::DashMap::insert: the path now maps to the given backlog
/// and no other path's backlog changes.
#[verifier::external_body]
pub(crate) fn path_table_put(
    t: &mut dashmap::DashMap<PathIdentifier, dashmap::DashMap<u64, u64>>,
    path: PathIdentifier,
    m: dashmap::DashMap<u64, u64>,
)
    ensures
        path_table_model(*final(t)) == path_table_model(*old(t)).insert(path@, sequence_map_model(m)),
{
    t.insert(path, m);
}

/// Relies on dashmap::DashSet::new: a freshly built set is empty.
#[verifier::external_body]
pub(crate) fn address_set_new() -> (r: dashmap::DashSet<String>)
    ensures
        address_set_model(r) == Set::<Seq<char>>::empty(),
{
    dashmap::DashSet::new()
}

/// Relies on dashmap::DashSet::insert: the element is added, nothing else
/// changes.
#[verifier::external_body]
pub(crate) fn address_set_insert(s: &mut dashmap::DashSet<String>, element: String)
    ensures
        address_set_model(*final(s)) == address_set_model(*old(s)).insert(element@),
{
    s.insert(element);
}

/// Relies on dashmap::DashSet::contains: membership of the element.
#[verifier::external_body]
pub(crate) fn address_set_contains(s: &dashmap::DashSet<String>, element: &str) -> (r: bool)
    ensures
        r == address_set_model(*s).contains(element@),
{
    s.contains(element)
}

/// Relies on moka::sync::Cache::builder / CacheBuilder::build: a freshly built
/// cache is empty. The build panics above 1000 years, so the lifetimes are
/// bounded above; they are bounded below by 1 second because the contract of
/// `cache_insert` relies on a written entry outliving the write.
#[verifier::external_body]
pub(crate) fn cache_new(ttl_secs: u64, tti_secs: u64) -> (r: moka::sync::Cache<String, u64>)
    requires
        1 <= ttl_secs <= 31_536_000_000,
        1 <= tti_secs <= 31_536_000_000,
    ensures
        (cache_model(r) == Map::<Seq<char>, u64>::empty()),
        cache_keeps_writes(r),
{
    moka::sync::Cache::builder()
        .time_to_live(std::time::Duration::from_secs(ttl_secs))
        .time_to_idle(std::time::Duration::from_secs(tti_secs))
        .build()
}

/// Relies on moka::sync::Cache::insert: in a cache whose lifetimes are
/// positive, the key maps to the value as of return; any other entry either
/// keeps its value or has expired. Inserting never changes the lifetimes.
#[verifier::external_body]
pub(crate) fn cache_insert(c: &mut moka::sync::Cache<String, u64>, key: &str, value: u64)
    requires
        cache_keeps_writes(*old(c)),
    ensures
        cache_model(*final(c)).submap_of(cache_model(*old(c)).insert(key@, value)),
        cache_model(*final(c)).dom().contains(key@),
        cache_model(*final(c))[key@] == value,
        cache_keeps_writes(*final(c)),
{
    c.insert(key.to_owned(), value);
}

/// Relies on moka::sync::Cache::get: returns the stored value exactly when the
/// entry is still live; entries only ever expire, never change, and a hit
/// leaves the entry present with that value, since get only renews the idle
/// timer. Reading never changes the lifetimes.
#[verifier::external_body]
pub(crate) fn cache_get(c: &mut moka::sync::Cache<String, u64>, key: &str) -> (r: Option<u64>)
    ensures
        cache_model(*final(c)).submap_of(cache_model(*old(c))),
        r == (if cache_model(*final(c)).dom().contains(key@) {
            Some(cache_model(*final(c))[key@])
        } else {
            None::<u64>
        }),
        r matches Some(v) ==> cache_model(*final(c)).dom().contains(key@) && cache_model(
            *final(c),
        )[key@] == v,
        cache_keeps_writes(*old(c)) ==> cache_keeps_writes(*final(c)),
{
    c.get(key)
}

/// Relies on moka::sync::Cache::get, applied to one cache of a list: reads the
/// entry of the cache at the given position, leaving every other cache alone.
#[verifier::external_body]
pub(crate) fn cache_list_get(
    caches: &mut Vec<moka::sync::Cache<String, u64>>,
    i: usize,
    key: &str,
) -> (r: Option<u64>)
    requires
        i < old(caches)@.len(),
    ensures
        final(caches)@.len() == old(caches)@.len(),
        forall|j: int| 0 <= j < final(caches)@.len() && j != i ==> final(caches)@[j] == old(
            caches,
        )@[j],
        cache_model(final(caches)@[i as int]).submap_of(cache_model(old(caches)@[i as int])),
        r == (if cache_model(final(caches)@[i as int]).dom().contains(key@) {
            Some(cache_model(final(caches)@[i as int])[key@])
        } else {
            None::<u64>
        }),
        cache_keeps_writes(old(caches)@[i as int]) ==> cache_keeps_writes(
            final(caches)@[i as int],
        ),
{
    caches[i].get(key)
}

} // verus!
