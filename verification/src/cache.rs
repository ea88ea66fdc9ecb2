//! The cache of orders that the server keeps beside the database.
use lru::LruCache;
use vstd::prelude::*;

use crate::model::{WBmodel, WBmodelView};

verus! {

/// `lru::LruCache`, a map that holds at most a fixed number of entries and
/// evicts the least recently used one to make room.
#[verifier::external_type_specification]
#[verifier::external_body]
#[verifier::reject_recursive_types(K)]
#[verifier::reject_recursive_types(V)]
#[verifier::reject_recursive_types(S)]
pub struct ExLruCache<K, V, S>(LruCache<K, V, S>);

/// `lru::DefaultHasher`, the hasher that a cache made by `LruCache::new` uses.
#[verifier::external_type_specification]
#[verifier::external_body]
pub struct ExLruDefaultHasher(lru::DefaultHasher);

/// The orders that a cache holds, by order uid.
pub uninterp spec fn cached_orders(cache: LruCache<String, WBmodel>) -> Map<Seq<char>, WBmodelView>;

/// The most orders that a cache holds.
pub uninterp spec fn cache_capacity(cache: LruCache<String, WBmodel>) -> nat;

/// Calls `lru::LruCache::new` with the capacity `cap`. Its source builds a
/// cache with no entry and the capacity it is given (`cap()` returns it).
/// The `requires` leaves out 0, which `NonZeroUsize` cannot hold; a
/// capacity too large for the hash map that the cache allocates up front
/// makes that allocation fail, which nothing here states.
#[verifier::external_body]
fn lru_new(cap: usize) -> (cache: LruCache<String, WBmodel>)
    requires
        0 < cap,
    ensures
        cached_orders(cache).dom() == Set::<Seq<char>>::empty(),
        cache_capacity(cache) == cap,
{
    LruCache::new(std::num::NonZeroUsize::new(cap).unwrap())
}

/// An empty cache of orders that holds at most `cap` of them. A capacity
/// of 0 is left out: no cache can have it.
pub fn order_cache(cap: usize) -> (cache: LruCache<String, WBmodel>)
    requires
        0 < cap,
    ensures
        cached_orders(cache).dom() == Set::<Seq<char>>::empty(),
        cache_capacity(cache) == cap,
{
    lru_new(cap)
}

} // verus!
