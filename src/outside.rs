use vstd::prelude::*;
use crate::schema::{Election, ElectionView, Timestamp};
use crate::ids::uuid_text;
use crate::repository::MAX_TTL_SECONDS;
use std::time::Duration;
use ttl_cache::TtlCache;

verus! {

/// Relies on uuid's `Uuid::from_u128` and its `Display` impl: the id's
/// bytes, most significant first, as lower-case hexadecimal digits in the
/// hyphenated grouping.
#[verifier::external_body]
pub(crate) fn uuid_string(id: u128) -> (r: String)
    ensures
        r@ == uuid_text(id),
{
    uuid::Uuid::from_u128(id).to_string()
}

/// Relies on uuid's `Uuid::new_v4` and `Uuid::as_u128`: a random id, of which
/// nothing is promised.
#[verifier::external_body]
pub(crate) fn new_uuid() -> (r: u128) {
    uuid::Uuid::new_v4().as_u128()
}

/// Relies on chrono's `Utc::now`, `DateTime::timestamp` and
/// `DateTime::timestamp_subsec_nanos`: the current time, of which nothing is
/// promised.
#[verifier::external_body]
pub(crate) fn now() -> (r: Timestamp) {
    let t = chrono::Utc::now();
    Timestamp { seconds: t.timestamp(), nanos: t.timestamp_subsec_nanos() }
}

#[verifier::external_type_specification]
#[verifier::external_body]
#[verifier::reject_recursive_types(K)]
#[verifier::reject_recursive_types(V)]
#[verifier::reject_recursive_types(S)]
pub struct ExTtlCache<K: Eq + std::hash::Hash, V, S: std::hash::BuildHasher>(ttl_cache::TtlCache<K, V, S>);

/// The cache of elections by id.
pub type ElectionCache = TtlCache<u128, Election>;

/// The entries that a cache holds, expired or not, by id.
pub uninterp spec fn cache_entries(c: ElectionCache) -> Map<u128, ElectionView>;

/// The number of entries a cache was made to hold at most.
pub uninterp spec fn cache_capacity(c: ElectionCache) -> nat;

/// Relies on ttl_cache's `TtlCache::new`: an empty cache of that capacity.
#[verifier::external_body]
pub(crate) fn cache_new(capacity: usize) -> (r: ElectionCache)
    ensures
        cache_entries(r).dom() == Set::<u128>::empty(),
        cache_capacity(r) == capacity,
{
    TtlCache::new(capacity)
}

/// Relies on ttl_cache's `TtlCache::get`: a value it returns is the entry held
/// for the id; an entry whose time to live has passed is not returned.
#[verifier::external_body]
pub(crate) fn cache_get(c: &ElectionCache, id: u128) -> (r: Option<&Election>)
    ensures
        r matches Some(e) ==> cache_entries(*c).contains_key(id) && cache_entries(*c)[id] == e@,
{
    c.get(&id)
}

/// Relies on ttl_cache's `TtlCache::insert`: the entry is stored, moved to the
/// newest place, and the oldest entry is dropped when the capacity is passed.
/// No other entry is added or changed. The entry's expiry is the clock plus
/// the time to live, which the bound keeps representable (std's `Instant`
/// addition panics otherwise).
#[verifier::external_body]
pub(crate) fn cache_insert(c: &mut ElectionCache, id: u128, e: Election, ttl_seconds: u64)
    requires
        ttl_seconds <= MAX_TTL_SECONDS,
    ensures
        cache_capacity(*final(c)) == cache_capacity(*old(c)),
        cache_capacity(*old(c)) > 0 ==> cache_entries(*final(c)).contains_key(id)
            && cache_entries(*final(c))[id] == e@,
        forall|k: u128| #[trigger] cache_entries(*final(c)).contains_key(k) ==> (
            (k == id && cache_entries(*final(c))[k] == e@) || (k != id && cache_entries(*old(c)).contains_key(k)
                && cache_entries(*final(c))[k] == cache_entries(*old(c))[k])),
{
    c.insert(id, e, Duration::from_secs(ttl_seconds));
}

/// Relies on ttl_cache's `TtlCache::remove`: the entry of the id is gone and
/// the others stay.
#[verifier::external_body]
pub(crate) fn cache_remove(c: &mut ElectionCache, id: u128)
    ensures
        cache_capacity(*final(c)) == cache_capacity(*old(c)),
        cache_entries(*final(c)) == cache_entries(*old(c)).remove(id),
{
    c.remove(&id);
}

} // verus!
