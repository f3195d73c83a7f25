//! The cache of single exchange rates. A rate is kept with the time at
//! which it was fetched and serves for four hours from then.

use crate::number::Number;
use crate::text::join;
use vstd::prelude::*;

verus! {

/// For how many seconds a cached rate serves.
pub const RATE_TTL_SECONDS: u64 = 14400;

/// A rate with the time at which it was fetched, in seconds since the epoch.
#[derive(Clone, Copy, Debug, PartialEq, Eq, Structural)]
pub struct RateCacheEntry {
    pub rate: Number,
    pub timestamp: u64,
}

/// A cache entry to be written under a key.
#[derive(Clone, Debug, PartialEq, Eq)]
pub struct RateCacheWrite {
    pub key: String,
    pub entry: RateCacheEntry,
}

/// The key under which the cache holds the rate from `from` to `to`.
pub open spec fn rate_cache_key_of(from: Seq<char>, to: Seq<char>) -> Seq<char> {
    "cache:"@ + from + "_"@ + to
}

/// Whether a rate fetched at `timestamp` still serves at `now`: while
/// `now - timestamp` is less than four hours. A rate stamped after `now`,
/// as by a clock that runs ahead, serves.
pub open spec fn is_fresh(timestamp: u64, now: u64) -> bool {
    now - timestamp < RATE_TTL_SECONDS
}

/// The rate that an entry serves at `now`: its rate while it is fresh. An
/// absent entry and a stale one serve nothing, and nothing tells them apart.
pub open spec fn rate_served(entry: Option<RateCacheEntry>, now: u64) -> Option<Number> {
    match entry {
        Some(found) => if is_fresh(found.timestamp, now) {
            Some(found.rate)
        } else {
            None
        },
        None => None,
    }
}

/// What a cache holds under the key of a currency pair.
pub open spec fn rate_cache_get(
    cache: Map<Seq<char>, RateCacheEntry>,
    from: Seq<char>,
    to: Seq<char>,
) -> Option<RateCacheEntry> {
    if cache.dom().contains(rate_cache_key_of(from, to)) {
        Some(cache[rate_cache_key_of(from, to)])
    } else {
        None
    }
}

/// The cache after `rate` was stored for a currency pair at `now`. What the
/// cache held for the pair is replaced.
pub open spec fn rate_cache_after_store(
    cache: Map<Seq<char>, RateCacheEntry>,
    from: Seq<char>,
    to: Seq<char>,
    rate: Number,
    now: u64,
) -> Map<Seq<char>, RateCacheEntry> {
    cache.insert(rate_cache_key_of(from, to), RateCacheEntry { rate, timestamp: now })
}

/// A rate that was just stored is served.
pub proof fn lemma_stored_rate_is_served(
    cache: Map<Seq<char>, RateCacheEntry>,
    from: Seq<char>,
    to: Seq<char>,
    rate: Number,
    now: u64,
)
    ensures
        rate_served(rate_cache_get(rate_cache_after_store(cache, from, to, rate, now), from, to), now)
            == Some(rate),
{
}

/// Four hours after a rate was stored, and at any time after that, it is
/// served no more, whatever the rate was.
pub proof fn lemma_stored_rate_expires(
    cache: Map<Seq<char>, RateCacheEntry>,
    from: Seq<char>,
    to: Seq<char>,
    rate: Number,
    now: u64,
    later: u64,
)
    requires
        later - now >= RATE_TTL_SECONDS,
    ensures
        rate_served(
            rate_cache_get(rate_cache_after_store(cache, from, to, rate, now), from, to),
            later,
        ) is None,
{
}

/// A rate stays served until four hours have passed since it was stored.
pub proof fn lemma_stored_rate_lasts(
    cache: Map<Seq<char>, RateCacheEntry>,
    from: Seq<char>,
    to: Seq<char>,
    rate: Number,
    now: u64,
    later: u64,
)
    requires
        later - now < RATE_TTL_SECONDS,
    ensures
        rate_served(
            rate_cache_get(rate_cache_after_store(cache, from, to, rate, now), from, to),
            later,
        ) == Some(rate),
{
}

/// The cache of single exchange rates.
pub struct RateCache {}

impl RateCache {
    /// The key of the rate from `from` to `to`.
    pub fn key(from: &str, to: &str) -> (key: String)
        ensures
            key@ == rate_cache_key_of(from@, to@),
    {
        let mut key = join("cache:", from);
        key.append("_");
        key.append(to);
        key
    }

    /// The rate that the cache serves at `now`, given the entry that the
    /// store holds under the pair's key.
    pub fn lookup(entry: Option<RateCacheEntry>, now: u64) -> (rate: Option<Number>)
        ensures
            rate == rate_served(entry, now),
    {
        match entry {
            Some(found) => match now.checked_sub(found.timestamp) {
                Some(age) => if age < RATE_TTL_SECONDS {
                    Some(found.rate)
                } else {
                    None
                },
                // The entry is stamped after `now`: no time has passed.
                None => Some(found.rate),
            },
            None => None,
        }
    }

    /// The write that keeps `rate` for the pair, fetched at `now`. It
    /// replaces what the cache held for the pair.
    pub fn store(from: &str, to: &str, rate: Number, now: u64) -> (write: RateCacheWrite)
        ensures
            write.key@ == rate_cache_key_of(from@, to@),
            write.entry == (RateCacheEntry { rate, timestamp: now }),
            forall|cache: Map<Seq<char>, RateCacheEntry>|
                #[trigger] cache.insert(write.key@, write.entry) == rate_cache_after_store(
                    cache,
                    from@,
                    to@,
                    rate,
                    now,
                ),
    {
        RateCacheWrite { key: RateCache::key(from, to), entry: RateCacheEntry { rate, timestamp: now } }
    }
}

} // verus!
