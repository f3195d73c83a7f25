//! The cache of historical series. A series of a closed date range never
//! changes, so what was cached once serves for good.

use crate::helpers::timeseries::{DailyRatesView, TimeseriesResponse};
use crate::text::join;
use vstd::prelude::*;

verus! {

/// A series to be written under a key.
#[derive(Debug, PartialEq, Eq)]
pub struct TimeseriesCacheWrite {
    pub key: String,
    pub series: TimeseriesResponse,
}

/// The key under which the cache holds the series of a date range and a
/// currency pair.
pub open spec fn timeseries_cache_key_of(
    start: Seq<char>,
    end: Seq<char>,
    from: Seq<char>,
    to: Seq<char>,
) -> Seq<char> {
    "timeseries_cache:"@ + start + "_"@ + end + "_"@ + from + "_"@ + to
}

/// What a cache holds under `key`: a miss where it holds nothing.
pub open spec fn timeseries_cache_get(
    cache: Map<Seq<char>, Seq<DailyRatesView>>,
    key: Seq<char>,
) -> Option<Seq<DailyRatesView>> {
    if cache.dom().contains(key) {
        Some(cache[key])
    } else {
        None
    }
}

/// The cache after `series` was stored under `key`. A series without days
/// is not stored.
pub open spec fn timeseries_cache_after_store(
    cache: Map<Seq<char>, Seq<DailyRatesView>>,
    key: Seq<char>,
    series: Seq<DailyRatesView>,
) -> Map<Seq<char>, Seq<DailyRatesView>> {
    if series.len() == 0 {
        cache
    } else {
        cache.insert(key, series)
    }
}

/// A key under which nothing was stored is a miss, and stays one when a
/// series without days is stored under it.
pub proof fn lemma_unseen_key_misses(
    cache: Map<Seq<char>, Seq<DailyRatesView>>,
    key: Seq<char>,
)
    requires
        !cache.dom().contains(key),
    ensures
        timeseries_cache_get(cache, key) is None,
        timeseries_cache_get(
            timeseries_cache_after_store(cache, key, Seq::<DailyRatesView>::empty()),
            key,
        ) is None,
{
}

/// Storing a series without days leaves the cache as it was.
pub proof fn lemma_empty_series_is_not_stored(
    cache: Map<Seq<char>, Seq<DailyRatesView>>,
    key: Seq<char>,
)
    ensures
        timeseries_cache_after_store(cache, key, Seq::<DailyRatesView>::empty()) == cache,
{
}

/// A series with days that was stored is found again, whatever time passes.
pub proof fn lemma_stored_series_is_found(
    cache: Map<Seq<char>, Seq<DailyRatesView>>,
    key: Seq<char>,
    series: Seq<DailyRatesView>,
)
    requires
        series.len() > 0,
    ensures
        timeseries_cache_get(timeseries_cache_after_store(cache, key, series), key) == Some(series),
{
}

/// The cache of historical series.
pub struct TimeseriesCache {}

impl TimeseriesCache {
    /// The key of the series from `start` to `end` of the rate from `from`
    /// to `to`.
    pub fn key(start: &str, end: &str, from: &str, to: &str) -> (key: String)
        ensures
            key@ == timeseries_cache_key_of(start@, end@, from@, to@),
    {
        let mut key = join("timeseries_cache:", start);
        key.append("_");
        key.append(end);
        key.append("_");
        key.append(from);
        key.append("_");
        key.append(to);
        key
    }

    /// The series that the cache serves, given what the store holds under
    /// the key: all of it, however old.
    pub fn lookup(cached: Option<TimeseriesResponse>) -> (series: Option<TimeseriesResponse>)
        ensures
            series == cached,
    {
        cached
    }

    /// The write that keeps `series` under the key of the range and the
    /// pair; no write for a series without days.
    pub fn store(start: &str, end: &str, from: &str, to: &str, series: TimeseriesResponse) -> (write:
        Option<TimeseriesCacheWrite>)
        ensures
            series@.len() == 0 ==> write is None,
            series@.len() > 0 ==> write is Some && write->0.key@ == timeseries_cache_key_of(
                start@,
                end@,
                from@,
                to@,
            ) && write->0.series == series,
            forall|cache: Map<Seq<char>, Seq<DailyRatesView>>|
                #![trigger timeseries_cache_after_store(cache, timeseries_cache_key_of(start@, end@, from@, to@), series@)]
                timeseries_cache_after_store(
                    cache,
                    timeseries_cache_key_of(start@, end@, from@, to@),
                    series@,
                ) == (match write {
                    Some(found) => cache.insert(found.key@, found.series@),
                    None => cache,
                }),
    {
        if series.is_empty() {
            None
        } else {
            Some(TimeseriesCacheWrite { key: TimeseriesCache::key(start, end, from, to), series })
        }
    }
}

} // verus!
