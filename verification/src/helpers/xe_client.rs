//! The currency exchange client: it resolves what a request asks for, finds
//! the rate or the series in the caches or has it fetched, and renders the
//! result.
//!
//! The client neither reads the store nor calls the rate service. Each of
//! `get_rate` and `get_timeseries` takes what has just happened and answers
//! with what its host is to do next, until the answer is `Done` or `Fail`.

use crate::embed::{plain_embed, Embed, EmbedField, EmbedFieldView, EmbedView, EXCHANGE_COLOR};
use crate::error::ExchangeError;
use crate::helpers::calendar::{utc_date_before, utc_date_text};
use crate::helpers::preferences::{
    default_from, default_to, default_writes, lemma_preference_keys_differ, precision_of,
    stored_preferences, text_or, PreferenceStore, StoredPreferences, StoredPreferencesView,
};
use crate::helpers::rate_cache::{
    rate_cache_key_of, rate_served, RateCache, RateCacheEntry,
};
use crate::helpers::store::{store_after, write_views, StoreWrite};
use crate::helpers::timeseries::{
    dates_ascend, rate_for, rate_of, rate_views, series_of, CurrencyRate, DailyRatesView,
    TimeseriesResponse,
};
use crate::helpers::timeseries_cache::{timeseries_cache_key_of, TimeseriesCache};
use crate::number::{series_extremes, series_max, series_min, Number};
use crate::text::{
    first_field, first_two_fields, join, lemma_parse_decimal_text, opt_text, opt_text_ref,
    parse_usize, second_field, spec_parse_usize,
};
use vstd::prelude::*;

verus! {

/// The largest number of decimal places that a converted amount is shown with.
pub const MAX_PRECISION: usize = 12;

/// The name of the header that carries the API key to the rate service.
pub const API_KEY_HEADER: &'static str = "apiKey";

/// The name of the variable of the environment that holds the API key.
pub const API_KEY_VARIABLE: &'static str = "CURR_CONV_TOKEN";

/// How many days the default date range spans.
pub const DEFAULT_RANGE_DAYS: i64 = 14;

// ---------------------------------------------------------------------------
// Data
// ---------------------------------------------------------------------------

/// The options of a currency request as the user gave them.
#[derive(Clone, Debug, PartialEq, Eq)]
pub struct XEOptions {
    pub set_default: Option<bool>,
    pub from: Option<String>,
    pub to: Option<String>,
    pub amount: Option<String>,
    pub precision: Option<String>,
    pub timeseries: Option<String>,
}

/// A range of dates, each written `YYYY-MM-DD`.
#[derive(Clone, Debug, PartialEq, Eq)]
pub struct TimeseriesRequest {
    pub start_date: String,
    pub end_date: String,
}

/// What a currency request comes to once defaults have filled its gaps.
#[derive(Clone, Debug, PartialEq, Eq)]
pub struct Request {
    pub from: String,
    pub to: String,
    pub amount: Number,
    pub precision: usize,
    pub dates: TimeseriesRequest,
}

/// The rate service's answer to a request for the latest rates.
#[derive(Clone, Debug, PartialEq, Eq)]
pub struct FixerResponse {
    pub base: String,
    pub date: String,
    pub rates: Vec<CurrencyRate>,
    pub success: bool,
    pub timestamp: u64,
}

/// The rate service's answer to a request for a series.
#[derive(Debug, PartialEq, Eq)]
pub struct FixerTimeseriesResponse {
    pub base: String,
    pub start_date: String,
    pub end_date: String,
    pub rates: TimeseriesResponse,
    pub success: bool,
    pub timeseries: bool,
}

/// A request with what has been found for it so far.
#[derive(Debug, PartialEq, Eq)]
pub struct XEClient {
    pub request: Request,
    pub rate: Option<Number>,
    pub timeseries: Option<TimeseriesResponse>,
}

/// What is to be multiplied and shown: the rate, the amount, and the number
/// of decimal places of the product.
#[derive(Clone, Copy, Debug, PartialEq, Eq, Structural)]
pub struct Conversion {
    pub rate: Number,
    pub amount: Number,
    pub precision: usize,
}

/// The rates of a series in the order of their dates, with the smallest and
/// the largest of them.
#[derive(Clone, Debug, PartialEq, Eq)]
pub struct TimeseriesSummary {
    pub values: Vec<Number>,
    pub min: Number,
    pub max: Number,
}

/// What an `XEOptions` holds, as mathematical values.
pub struct XEOptionsView {
    pub set_default: Option<bool>,
    pub from: Option<Seq<char>>,
    pub to: Option<Seq<char>>,
    pub amount: Option<Seq<char>>,
    pub precision: Option<Seq<char>>,
    pub timeseries: Option<Seq<char>>,
}

/// What a `TimeseriesRequest` holds, as mathematical values.
pub struct TimeseriesRequestView {
    pub start_date: Seq<char>,
    pub end_date: Seq<char>,
}

/// What a `Request` holds, as mathematical values.
pub struct RequestView {
    pub from: Seq<char>,
    pub to: Seq<char>,
    pub amount: Number,
    pub precision: usize,
    pub dates: TimeseriesRequestView,
}

/// What a `FixerResponse` holds, as mathematical values.
pub struct FixerResponseView {
    pub base: Seq<char>,
    pub date: Seq<char>,
    pub rates: Seq<(Seq<char>, Number)>,
    pub success: bool,
    pub timestamp: u64,
}

/// What a `FixerTimeseriesResponse` holds, as mathematical values.
pub struct FixerTimeseriesResponseView {
    pub base: Seq<char>,
    pub start_date: Seq<char>,
    pub end_date: Seq<char>,
    pub rates: Seq<DailyRatesView>,
    pub success: bool,
    pub timeseries: bool,
}

/// What an `XEClient` holds, as mathematical values.
pub struct XEClientView {
    pub request: RequestView,
    pub rate: Option<Number>,
    pub timeseries: Option<Seq<DailyRatesView>>,
}

/// What a `TimeseriesSummary` holds, as mathematical values.
pub struct TimeseriesSummaryView {
    pub values: Seq<Number>,
    pub min: Number,
    pub max: Number,
}

impl View for XEOptions {
    type V = XEOptionsView;

    open spec fn view(&self) -> XEOptionsView {
        XEOptionsView {
            set_default: self.set_default,
            from: opt_text(self.from),
            to: opt_text(self.to),
            amount: opt_text(self.amount),
            precision: opt_text(self.precision),
            timeseries: opt_text(self.timeseries),
        }
    }
}

impl View for TimeseriesRequest {
    type V = TimeseriesRequestView;

    open spec fn view(&self) -> TimeseriesRequestView {
        TimeseriesRequestView { start_date: self.start_date@, end_date: self.end_date@ }
    }
}

impl View for Request {
    type V = RequestView;

    open spec fn view(&self) -> RequestView {
        RequestView {
            from: self.from@,
            to: self.to@,
            amount: self.amount,
            precision: self.precision,
            dates: self.dates@,
        }
    }
}

impl View for FixerResponse {
    type V = FixerResponseView;

    open spec fn view(&self) -> FixerResponseView {
        FixerResponseView {
            base: self.base@,
            date: self.date@,
            rates: rate_views(self.rates@),
            success: self.success,
            timestamp: self.timestamp,
        }
    }
}

impl View for FixerTimeseriesResponse {
    type V = FixerTimeseriesResponseView;

    open spec fn view(&self) -> FixerTimeseriesResponseView {
        FixerTimeseriesResponseView {
            base: self.base@,
            start_date: self.start_date@,
            end_date: self.end_date@,
            rates: self.rates@,
            success: self.success,
            timeseries: self.timeseries,
        }
    }
}

/// The view of an optional series.
pub open spec fn opt_series_view(series: Option<TimeseriesResponse>) -> Option<Seq<DailyRatesView>> {
    match series {
        Some(found) => Some(found@),
        None => None,
    }
}

impl View for XEClient {
    type V = XEClientView;

    open spec fn view(&self) -> XEClientView {
        XEClientView {
            request: self.request@,
            rate: self.rate,
            timeseries: opt_series_view(self.timeseries),
        }
    }
}

impl View for TimeseriesSummary {
    type V = TimeseriesSummaryView;

    open spec fn view(&self) -> TimeseriesSummaryView {
        TimeseriesSummaryView { values: self.values@, min: self.min, max: self.max }
    }
}

// ---------------------------------------------------------------------------
// Resolution
// ---------------------------------------------------------------------------

/// The source currency of a request: the one asked for, else the stored
/// one, else `USD`. The code is taken as it is, known or not.
pub open spec fn spec_resolve_from(from: Option<Seq<char>>, stored: Option<Seq<char>>) -> Seq<char> {
    match from {
        Some(code) => code,
        None => text_or(stored, default_from()),
    }
}

/// The target currency of a request: the one asked for, else the stored
/// one, else `JPY`. The code is taken as it is, known or not.
pub open spec fn spec_resolve_to(to: Option<Seq<char>>, stored: Option<Seq<char>>) -> Seq<char> {
    match to {
        Some(code) => code,
        None => text_or(stored, default_to()),
    }
}

/// The precision of a request: the number that the text asked for denotes;
/// where nothing is asked for or the text denotes no number, the stored
/// precision; and `4` where that fails too. A precision above twelve is
/// kept as it is.
pub open spec fn spec_resolve_precision(
    precision: Option<Seq<char>>,
    stored: Option<Seq<char>>,
) -> usize {
    match precision {
        Some(text) => match spec_parse_usize(text) {
            Some(number) => number,
            None => precision_of(stored),
        },
        None => precision_of(stored),
    }
}

/// The amount of a request: the number that was read from the amount asked
/// for, or one where none was asked for or none could be read.
pub open spec fn spec_resolve_amount(amount: Option<Number>) -> Number {
    match amount {
        Some(number) => number,
        None => Number::spec_one(),
    }
}

/// The date range of a request. The text asked for is divided at `_`: what
/// stands before the first `_` is the start, and what follows it, up to the
/// next `_`, is the end. Without a `_` the end is that of the default
/// range, and with nothing asked for the range is the default range.
/// Neither date is checked.
pub open spec fn spec_resolve_dates(
    dates: Option<Seq<char>>,
    default_range: TimeseriesRequestView,
) -> TimeseriesRequestView {
    match dates {
        Some(text) => TimeseriesRequestView {
            start_date: first_field(text, '_'),
            end_date: match second_field(text, '_') {
                Some(end) => end,
                None => default_range.end_date,
            },
        },
        None => default_range,
    }
}

/// The range of the last fourteen days that ends on the day of `now`, a
/// moment in seconds since the epoch; nothing where a day of the range is
/// beyond the calendar.
pub open spec fn spec_default_range(now: i64) -> Option<TimeseriesRequestView> {
    match (utc_date_text(now, DEFAULT_RANGE_DAYS), utc_date_text(now, 0)) {
        (Some(start), Some(end)) => Some(TimeseriesRequestView { start_date: start, end_date: end }),
        _ => None,
    }
}

/// The number of decimal places that a converted amount is shown with: the
/// precision of the request, but no more than twelve.
pub open spec fn spec_display_precision(precision: usize) -> usize {
    if precision <= MAX_PRECISION {
        precision
    } else {
        MAX_PRECISION
    }
}

/// What a request resolves to.
pub open spec fn spec_resolve(
    from: Option<Seq<char>>,
    to: Option<Seq<char>>,
    amount: Option<Number>,
    precision: Option<Seq<char>>,
    dates: Option<Seq<char>>,
    stored: StoredPreferencesView,
    default_range: TimeseriesRequestView,
) -> RequestView {
    RequestView {
        from: spec_resolve_from(from, stored.currency_from),
        to: spec_resolve_to(to, stored.currency_to),
        amount: spec_resolve_amount(amount),
        precision: spec_resolve_precision(precision, stored.currency_precision),
        dates: spec_resolve_dates(dates, default_range),
    }
}

impl TimeseriesRequest {
    /// The range of the last fourteen days that ends on the day of `now`.
    pub fn default_range(now: i64) -> (range: Option<TimeseriesRequest>)
        ensures
            match range {
                Some(found) => spec_default_range(now) == Some(found@),
                None => spec_default_range(now) is None,
            },
    {
        let start_date = match utc_date_before(now, DEFAULT_RANGE_DAYS) {
            Some(text) => text,
            None => {
                return None;
            },
        };
        let end_date = match utc_date_before(now, 0) {
            Some(text) => text,
            None => {
                return None;
            },
        };
        Some(TimeseriesRequest { start_date, end_date })
    }
}

// ---------------------------------------------------------------------------
// The service
// ---------------------------------------------------------------------------

/// The address that gives the latest rate from `from` to `to`.
pub open spec fn latest_url_of(from: Seq<char>, to: Seq<char>) -> Seq<char> {
    "https://api.apilayer.com/fixer/latest?symbols="@ + to + "&base="@ + from
}

/// The address that gives the rates from `from` to `to` for each day from
/// `start` to `end`.
pub open spec fn timeseries_url_of(
    from: Seq<char>,
    to: Seq<char>,
    start: Seq<char>,
    end: Seq<char>,
) -> Seq<char> {
    "https://api.apilayer.com/fixer/timeseries?symbols="@ + to + "&base="@ + from
        + "&start_date="@ + start + "&end_date="@ + end
}

/// What has happened to a rate lookup.
#[derive(Clone, Debug, PartialEq, Eq)]
pub enum RateEvent {
    /// Nothing yet: the lookup begins.
    Start,
    /// The store was read under the cache key, at the time `now`. A key
    /// that is absent and a read that failed both give no entry.
    CacheRead { entry: Option<RateCacheEntry>, now: u64 },
    /// The rate service answered, at the time `now`.
    Fetched { response: FixerResponse, now: u64 },
    /// The rate service could not be reached or its answer not be read.
    FetchFailed,
    /// The cache entry was written.
    CacheWritten,
    /// The cache entry could not be written.
    CacheWriteFailed,
}

/// What the host of a rate lookup is to do next.
#[derive(Clone, Debug, PartialEq, Eq)]
pub enum RateAction {
    /// Read the store under `key` and report `CacheRead`.
    ReadCache { key: String },
    /// Get `url`, with the API key attached, and report `Fetched` or `FetchFailed`.
    Fetch { url: String },
    /// Write `entry` under `key` and report `CacheWritten` or `CacheWriteFailed`.
    WriteCache { key: String, entry: RateCacheEntry },
    /// The rate is there.
    Done,
    /// The request has failed.
    Fail(ExchangeError),
}

/// What has happened to a series lookup.
#[derive(Debug, PartialEq, Eq)]
pub enum TimeseriesEvent {
    /// Nothing yet: the lookup begins.
    Start,
    /// The store was read under the cache key. A key that is absent and a
    /// read that failed both give no series.
    CacheRead { series: Option<TimeseriesResponse> },
    /// The rate service answered.
    Fetched { response: FixerTimeseriesResponse },
    /// The rate service could not be reached or its answer not be read.
    FetchFailed,
    /// The series was written to the cache.
    CacheWritten,
    /// The series could not be written to the cache.
    CacheWriteFailed,
}

/// What the host of a series lookup is to do next.
#[derive(Debug, PartialEq, Eq)]
pub enum TimeseriesAction {
    /// Read the store under `key` and report `CacheRead`.
    ReadCache { key: String },
    /// Get `url`, with the API key attached, and report `Fetched` or `FetchFailed`.
    Fetch { url: String },
    /// Write `series` under `key` and report `CacheWritten` or `CacheWriteFailed`.
    WriteCache { key: String, series: TimeseriesResponse },
    /// The lookup is over. The service may have had no day to give.
    Done,
    /// The request has failed.
    Fail(ExchangeError),
}

/// What a `RateEvent` holds, as mathematical values.
pub enum RateEventView {
    Start,
    CacheRead { entry: Option<RateCacheEntry>, now: u64 },
    Fetched { response: FixerResponseView, now: u64 },
    FetchFailed,
    CacheWritten,
    CacheWriteFailed,
}

/// What a `RateAction` holds, as mathematical values.
pub enum RateActionView {
    ReadCache { key: Seq<char> },
    Fetch { url: Seq<char> },
    WriteCache { key: Seq<char>, entry: RateCacheEntry },
    Done,
    Fail(ExchangeError),
}

/// What a `TimeseriesEvent` holds, as mathematical values.
pub enum TimeseriesEventView {
    Start,
    CacheRead { series: Option<Seq<DailyRatesView>> },
    Fetched { response: FixerTimeseriesResponseView },
    FetchFailed,
    CacheWritten,
    CacheWriteFailed,
}

/// What a `TimeseriesAction` holds, as mathematical values.
pub enum TimeseriesActionView {
    ReadCache { key: Seq<char> },
    Fetch { url: Seq<char> },
    WriteCache { key: Seq<char>, series: Seq<DailyRatesView> },
    Done,
    Fail(ExchangeError),
}

impl View for RateEvent {
    type V = RateEventView;

    open spec fn view(&self) -> RateEventView {
        match self {
            RateEvent::Start => RateEventView::Start,
            RateEvent::CacheRead { entry, now } => RateEventView::CacheRead {
                entry: *entry,
                now: *now,
            },
            RateEvent::Fetched { response, now } => RateEventView::Fetched {
                response: response@,
                now: *now,
            },
            RateEvent::FetchFailed => RateEventView::FetchFailed,
            RateEvent::CacheWritten => RateEventView::CacheWritten,
            RateEvent::CacheWriteFailed => RateEventView::CacheWriteFailed,
        }
    }
}

impl View for RateAction {
    type V = RateActionView;

    open spec fn view(&self) -> RateActionView {
        match self {
            RateAction::ReadCache { key } => RateActionView::ReadCache { key: key@ },
            RateAction::Fetch { url } => RateActionView::Fetch { url: url@ },
            RateAction::WriteCache { key, entry } => RateActionView::WriteCache {
                key: key@,
                entry: *entry,
            },
            RateAction::Done => RateActionView::Done,
            RateAction::Fail(error) => RateActionView::Fail(*error),
        }
    }
}

impl View for TimeseriesEvent {
    type V = TimeseriesEventView;

    open spec fn view(&self) -> TimeseriesEventView {
        match self {
            TimeseriesEvent::Start => TimeseriesEventView::Start,
            TimeseriesEvent::CacheRead { series } => TimeseriesEventView::CacheRead {
                series: opt_series_view(*series),
            },
            TimeseriesEvent::Fetched { response } => TimeseriesEventView::Fetched {
                response: response@,
            },
            TimeseriesEvent::FetchFailed => TimeseriesEventView::FetchFailed,
            TimeseriesEvent::CacheWritten => TimeseriesEventView::CacheWritten,
            TimeseriesEvent::CacheWriteFailed => TimeseriesEventView::CacheWriteFailed,
        }
    }
}

impl View for TimeseriesAction {
    type V = TimeseriesActionView;

    open spec fn view(&self) -> TimeseriesActionView {
        match self {
            TimeseriesAction::ReadCache { key } => TimeseriesActionView::ReadCache { key: key@ },
            TimeseriesAction::Fetch { url } => TimeseriesActionView::Fetch { url: url@ },
            TimeseriesAction::WriteCache { key, series } => TimeseriesActionView::WriteCache {
                key: key@,
                series: series@,
            },
            TimeseriesAction::Done => TimeseriesActionView::Done,
            TimeseriesAction::Fail(error) => TimeseriesActionView::Fail(*error),
        }
    }
}

/// The rate that an answer of the rate service gives for `to`: the one it
/// lists for this code, provided that it reports success.
pub open spec fn fetched_rate(response: FixerResponseView, to: Seq<char>) -> Option<Number> {
    if response.success {
        rate_of(response.rates, to)
    } else {
        None
    }
}

/// One step of a rate lookup: the client after `event`, and what is to be
/// done next.
///
/// The lookup begins by reading the cache. An entry that is still fresh
/// gives the rate. Otherwise the rate is fetched; a fetched rate is written
/// to the cache with the time of the fetch. An answer without the rate, a
/// failed fetch and a failed write each fail the request: nothing is tried
/// again, and a stale entry is not fallen back on.
pub open spec fn rate_step(client: XEClientView, event: RateEventView) -> (
    XEClientView,
    RateActionView,
) {
    match event {
        RateEventView::Start => (
            client,
            RateActionView::ReadCache {
                key: rate_cache_key_of(client.request.from, client.request.to),
            },
        ),
        RateEventView::CacheRead { entry, now } => match rate_served(entry, now) {
            Some(rate) => (
                XEClientView { rate: Some(rate), ..client },
                RateActionView::Done,
            ),
            None => (
                client,
                RateActionView::Fetch {
                    url: latest_url_of(client.request.from, client.request.to),
                },
            ),
        },
        RateEventView::Fetched { response, now } => match fetched_rate(
            response,
            client.request.to,
        ) {
            Some(rate) => (
                XEClientView { rate: Some(rate), ..client },
                RateActionView::WriteCache {
                    key: rate_cache_key_of(client.request.from, client.request.to),
                    entry: RateCacheEntry { rate, timestamp: now },
                },
            ),
            None => (
                XEClientView { rate: None, ..client },
                RateActionView::Fail(ExchangeError::UpstreamFailure),
            ),
        },
        RateEventView::FetchFailed => (
            client,
            RateActionView::Fail(ExchangeError::UpstreamFailure),
        ),
        RateEventView::CacheWritten => (client, RateActionView::Done),
        RateEventView::CacheWriteFailed => (
            client,
            RateActionView::Fail(ExchangeError::StoreUnavailable),
        ),
    }
}

/// The key under which the cache holds the series that `request` asks for.
pub open spec fn series_key_of(request: RequestView) -> Seq<char> {
    timeseries_cache_key_of(
        request.dates.start_date,
        request.dates.end_date,
        request.from,
        request.to,
    )
}

/// One step of a series lookup: the client after `event`, and what is to be
/// done next.
///
/// The lookup begins by reading the cache. A cached series serves, however
/// old. Otherwise the series is fetched for the whole range; a fetched
/// series with at least one day is kept and written to the cache, one
/// without days is neither. An answer that reports no success, a failed
/// fetch and a failed write each fail the request.
pub open spec fn timeseries_step(client: XEClientView, event: TimeseriesEventView) -> (
    XEClientView,
    TimeseriesActionView,
) {
    match event {
        TimeseriesEventView::Start => (
            client,
            TimeseriesActionView::ReadCache { key: series_key_of(client.request) },
        ),
        TimeseriesEventView::CacheRead { series } => match series {
            Some(found) => (
                XEClientView { timeseries: Some(found), ..client },
                TimeseriesActionView::Done,
            ),
            None => (
                client,
                TimeseriesActionView::Fetch {
                    url: timeseries_url_of(
                        client.request.from,
                        client.request.to,
                        client.request.dates.start_date,
                        client.request.dates.end_date,
                    ),
                },
            ),
        },
        TimeseriesEventView::Fetched { response } => if !response.success {
            (client, TimeseriesActionView::Fail(ExchangeError::UpstreamFailure))
        } else if response.rates.len() == 0 {
            (client, TimeseriesActionView::Done)
        } else {
            (
                XEClientView { timeseries: Some(response.rates), ..client },
                TimeseriesActionView::WriteCache {
                    key: series_key_of(client.request),
                    series: response.rates,
                },
            )
        },
        TimeseriesEventView::FetchFailed => (
            client,
            TimeseriesActionView::Fail(ExchangeError::UpstreamFailure),
        ),
        TimeseriesEventView::CacheWritten => (client, TimeseriesActionView::Done),
        TimeseriesEventView::CacheWriteFailed => (
            client,
            TimeseriesActionView::Fail(ExchangeError::StoreUnavailable),
        ),
    }
}

// ---------------------------------------------------------------------------
// Rendering
// ---------------------------------------------------------------------------

/// What is to be multiplied and shown for a client: its rate and amount,
/// with the precision cut down to twelve. A client without a rate has
/// nothing to show, which is a failure of the rate service.
pub open spec fn spec_get_xe(client: XEClientView) -> Result<Conversion, ExchangeError> {
    match client.rate {
        Some(rate) => Ok(
            Conversion {
                rate,
                amount: client.request.amount,
                precision: spec_display_precision(client.request.precision),
            },
        ),
        None => Err(ExchangeError::UpstreamFailure),
    }
}

/// The line that tells a conversion: the amount and its currency, an arrow,
/// the converted amount and its currency.
pub open spec fn rate_description(
    amount_text: Seq<char>,
    from: Seq<char>,
    converted_text: Seq<char>,
    to: Seq<char>,
) -> Seq<char> {
    amount_text + " "@ + from + " --> "@ + converted_text + " "@ + to
}

/// The summary of the series that a client holds: the rates of the target
/// currency in the order of the dates, with their smallest and largest. A
/// client without a series, a series without days and a day without a rate
/// for the target currency are failures of the rate service.
pub open spec fn spec_timeseries_summary(client: XEClientView) -> Result<
    TimeseriesSummaryView,
    ExchangeError,
> {
    match client.timeseries {
        Some(days) => match series_of(days, client.request.to) {
            Some(values) => if values.len() == 0 {
                Err(ExchangeError::UpstreamFailure)
            } else {
                Ok(
                    TimeseriesSummaryView {
                        values,
                        min: series_min(values),
                        max: series_max(values),
                    },
                )
            },
            None => Err(ExchangeError::UpstreamFailure),
        },
        None => Err(ExchangeError::UpstreamFailure),
    }
}

/// The embed that shows a series: the plot, and the smallest and the
/// largest rate side by side.
pub open spec fn timeseries_embed(
    plot: Seq<char>,
    min_text: Seq<char>,
    max_text: Seq<char>,
) -> EmbedView {
    EmbedView {
        title: "Exchange Rate Timeseries"@,
        description: plot,
        url: None,
        thumbnail: None,
        footer: None,
        fields: seq![
            EmbedFieldView { name: "Min"@, value: min_text, inline: Some(true) },
            EmbedFieldView { name: "Max"@, value: max_text, inline: Some(true) },
        ],
        color: Some(EXCHANGE_COLOR),
    }
}

/// The number of decimal places that a converted amount is shown with.
pub fn display_precision(precision: usize) -> (shown: usize)
    ensures
        shown == spec_display_precision(precision),
        shown <= MAX_PRECISION,
        precision <= MAX_PRECISION ==> shown == precision,
        precision > MAX_PRECISION ==> shown == MAX_PRECISION,
{
    if precision <= MAX_PRECISION {
        precision
    } else {
        MAX_PRECISION
    }
}

impl XEClient {
    /// The client of a request: what was asked for, with the gaps filled
    /// from the stored preferences and the defaults. `amount` is the number
    /// read from the amount asked for, if one could be read. Nothing has
    /// been looked up yet.
    pub fn new(
        from: Option<&String>,
        to: Option<&String>,
        amount: Option<Number>,
        precision: Option<&String>,
        dates: Option<&String>,
        stored: &StoredPreferences,
        default_range: &TimeseriesRequest,
    ) -> (client: XEClient)
        ensures
            client@ == (XEClientView {
                request: spec_resolve(
                    opt_text_ref(from),
                    opt_text_ref(to),
                    amount,
                    opt_text_ref(precision),
                    opt_text_ref(dates),
                    stored@,
                    default_range@,
                ),
                rate: None,
                timeseries: None,
            }),
    {
        XEClient {
            request: Request {
                from: XEClient::resolve_from(from, stored.currency_from.as_ref()),
                to: XEClient::resolve_to(to, stored.currency_to.as_ref()),
                amount: XEClient::resolve_amount(amount),
                precision: XEClient::resolve_precision(
                    precision,
                    stored.currency_precision.as_ref(),
                ),
                dates: XEClient::resolve_dates(dates, default_range),
            },
            rate: None,
            timeseries: None,
        }
    }

    /// The source currency: the one asked for, else the stored one, else `USD`.
    pub fn resolve_from(from: Option<&String>, stored: Option<&String>) -> (code: String)
        ensures
            code@ == spec_resolve_from(opt_text_ref(from), opt_text_ref(stored)),
    {
        match from {
            Some(code) => code.clone(),
            None => PreferenceStore::get_default_from(stored),
        }
    }

    /// The target currency: the one asked for, else the stored one, else `JPY`.
    pub fn resolve_to(to: Option<&String>, stored: Option<&String>) -> (code: String)
        ensures
            code@ == spec_resolve_to(opt_text_ref(to), opt_text_ref(stored)),
    {
        match to {
            Some(code) => code.clone(),
            None => PreferenceStore::get_default_to(stored),
        }
    }

    /// The precision: the one asked for where it is a number, else the
    /// stored one where that is a number, else `4`.
    pub fn resolve_precision(precision: Option<&String>, stored: Option<&String>) -> (resolved:
        usize)
        ensures
            resolved == spec_resolve_precision(opt_text_ref(precision), opt_text_ref(stored)),
    {
        match precision {
            Some(text) => match parse_usize(text.as_str()) {
                Some(number) => number,
                None => PreferenceStore::get_default_precision(stored),
            },
            None => PreferenceStore::get_default_precision(stored),
        }
    }

    /// The amount: the number read from the amount asked for, or one where
    /// none was asked for or none could be read.
    pub fn resolve_amount(amount: Option<Number>) -> (resolved: Number)
        ensures
            resolved == spec_resolve_amount(amount),
            amount is None ==> resolved == Number::spec_one(),
    {
        match amount {
            Some(number) => number,
            None => Number::one(),
        }
    }

    /// The date range: the dates asked for, each replaced by that of the
    /// default range where it is missing.
    pub fn resolve_dates(dates: Option<&String>, default_range: &TimeseriesRequest) -> (range:
        TimeseriesRequest)
        ensures
            range@ == spec_resolve_dates(opt_text_ref(dates), default_range@),
    {
        match dates {
            Some(text) => {
                let (start_date, second) = first_two_fields(text.as_str(), '_');
                let end_date = match second {
                    Some(end) => end,
                    None => default_range.end_date.clone(),
                };
                TimeseriesRequest { start_date, end_date }
            },
            None => TimeseriesRequest {
                start_date: default_range.start_date.clone(),
                end_date: default_range.end_date.clone(),
            },
        }
    }

    /// The address that gives the latest rate of the request.
    pub fn latest_url(&self) -> (url: String)
        ensures
            url@ == latest_url_of(self@.request.from, self@.request.to),
    {
        let mut url = join(
            "https://api.apilayer.com/fixer/latest?symbols=",
            self.request.to.as_str(),
        );
        url.append("&base=");
        url.append(self.request.from.as_str());
        url
    }

    /// The address that gives the series of the request.
    pub fn timeseries_url(&self) -> (url: String)
        ensures
            url@ == timeseries_url_of(
                self@.request.from,
                self@.request.to,
                self@.request.dates.start_date,
                self@.request.dates.end_date,
            ),
    {
        let mut url = join(
            "https://api.apilayer.com/fixer/timeseries?symbols=",
            self.request.to.as_str(),
        );
        url.append("&base=");
        url.append(self.request.from.as_str());
        url.append("&start_date=");
        url.append(self.request.dates.start_date.as_str());
        url.append("&end_date=");
        url.append(self.request.dates.end_date.as_str());
        url
    }

    /// The key under which the cache holds the series of the request.
    pub fn timeseries_key(&self) -> (key: String)
        ensures
            key@ == series_key_of(self@.request),
    {
        TimeseriesCache::key(
            self.request.dates.start_date.as_str(),
            self.request.dates.end_date.as_str(),
            self.request.from.as_str(),
            self.request.to.as_str(),
        )
    }

    /// Takes one step of the rate lookup.
    pub fn get_rate(&mut self, event: RateEvent) -> (action: RateAction)
        ensures
            (final(self)@, action@) == rate_step(old(self)@, event@),
    {
        match event {
            RateEvent::Start => RateAction::ReadCache {
                key: RateCache::key(self.request.from.as_str(), self.request.to.as_str()),
            },
            RateEvent::CacheRead { entry, now } => match RateCache::lookup(entry, now) {
                Some(rate) => {
                    self.rate = Some(rate);
                    RateAction::Done
                },
                None => RateAction::Fetch { url: self.latest_url() },
            },
            RateEvent::Fetched { response, now } => {
                let found = if response.success {
                    rate_for(&response.rates, self.request.to.as_str())
                } else {
                    None
                };
                match found {
                    Some(rate) => {
                        let write = RateCache::store(
                            self.request.from.as_str(),
                            self.request.to.as_str(),
                            rate,
                            now,
                        );
                        self.rate = Some(rate);
                        RateAction::WriteCache { key: write.key, entry: write.entry }
                    },
                    None => {
                        self.rate = None;
                        RateAction::Fail(ExchangeError::UpstreamFailure)
                    },
                }
            },
            RateEvent::FetchFailed => RateAction::Fail(ExchangeError::UpstreamFailure),
            RateEvent::CacheWritten => RateAction::Done,
            RateEvent::CacheWriteFailed => RateAction::Fail(ExchangeError::StoreUnavailable),
        }
    }

    /// Takes one step of the series lookup.
    pub fn get_timeseries(&mut self, event: TimeseriesEvent) -> (action: TimeseriesAction)
        ensures
            (final(self)@, action@) == timeseries_step(old(self)@, event@),
    {
        match event {
            TimeseriesEvent::Start => TimeseriesAction::ReadCache { key: self.timeseries_key() },
            TimeseriesEvent::CacheRead { series } => match TimeseriesCache::lookup(series) {
                Some(found) => {
                    self.timeseries = Some(found);
                    TimeseriesAction::Done
                },
                None => TimeseriesAction::Fetch { url: self.timeseries_url() },
            },
            TimeseriesEvent::Fetched { response } => {
                if !response.success {
                    return TimeseriesAction::Fail(ExchangeError::UpstreamFailure);
                }
                let series = response.rates;
                let written = TimeseriesCache::store(
                    self.request.dates.start_date.as_str(),
                    self.request.dates.end_date.as_str(),
                    self.request.from.as_str(),
                    self.request.to.as_str(),
                    series.clone(),
                );
                match written {
                    Some(write) => {
                        self.timeseries = Some(series);
                        TimeseriesAction::WriteCache { key: write.key, series: write.series }
                    },
                    None => TimeseriesAction::Done,
                }
            },
            TimeseriesEvent::FetchFailed => TimeseriesAction::Fail(ExchangeError::UpstreamFailure),
            TimeseriesEvent::CacheWritten => TimeseriesAction::Done,
            TimeseriesEvent::CacheWriteFailed => TimeseriesAction::Fail(
                ExchangeError::StoreUnavailable,
            ),
        }
    }

    /// The writes that keep the currency pair and the precision of the
    /// request as the defaults of `username`.
    pub fn set_default(&self, username: &str) -> (writes: Vec<StoreWrite>)
        ensures
            write_views(writes@) == default_writes(
                username@,
                self@.request.from,
                self@.request.to,
                self@.request.precision,
            ),
    {
        PreferenceStore::set_defaults(
            username,
            self.request.from.as_str(),
            self.request.to.as_str(),
            self.request.precision,
        )
    }

    /// What is to be multiplied and shown: the rate, the amount, and the
    /// number of decimal places, which is the precision of the request but
    /// no more than twelve.
    pub fn get_xe(&self) -> (conversion: Result<Conversion, ExchangeError>)
        ensures
            conversion == spec_get_xe(self@),
            conversion matches Ok(shown) ==> shown.precision <= MAX_PRECISION && (
            self@.request.precision <= MAX_PRECISION ==> shown.precision
                == self@.request.precision) && (self@.request.precision > MAX_PRECISION
                ==> shown.precision == MAX_PRECISION),
    {
        match self.rate {
            Some(rate) => Ok(
                Conversion {
                    rate,
                    amount: self.request.amount,
                    precision: display_precision(self.request.precision),
                },
            ),
            None => Err(ExchangeError::UpstreamFailure),
        }
    }

    /// The embed that tells a conversion. `amount_text` is the amount in its
    /// shortest notation and `converted_text` the product of amount and
    /// rate with the decimal places of `get_xe`.
    pub fn construct_rate_embed(&self, amount_text: &str, converted_text: &str) -> (embed: Embed)
        ensures
            embed@ == plain_embed(
                "Exchange Rate"@,
                rate_description(
                    amount_text@,
                    self@.request.from,
                    converted_text@,
                    self@.request.to,
                ),
                EXCHANGE_COLOR,
            ),
    {
        let mut description = join(amount_text, " ");
        description.append(self.request.from.as_str());
        description.append(" --> ");
        description.append(converted_text);
        description.append(" ");
        description.append(self.request.to.as_str());
        Embed::plain("Exchange Rate".to_owned(), description, EXCHANGE_COLOR)
    }

    /// The rates of the series in the order of their dates, with the
    /// smallest and the largest of them.
    pub fn timeseries_summary(&self) -> (summary: Result<TimeseriesSummary, ExchangeError>)
        ensures
            match summary {
                Ok(found) => spec_timeseries_summary(self@) == Ok::<
                    TimeseriesSummaryView,
                    ExchangeError,
                >(found@),
                Err(error) => spec_timeseries_summary(self@) == Err::<
                    TimeseriesSummaryView,
                    ExchangeError,
                >(error),
            },
            summary is Ok ==> dates_ascend(self@.timeseries->0),
    {
        let series = match &self.timeseries {
            Some(series) => series,
            None => {
                return Err(ExchangeError::UpstreamFailure);
            },
        };
        let values = match series.series_for(self.request.to.as_str()) {
            Some(values) => values,
            None => {
                return Err(ExchangeError::UpstreamFailure);
            },
        };
        if values.len() == 0 {
            return Err(ExchangeError::UpstreamFailure);
        }
        let (min, max) = series_extremes(&values);
        Ok(TimeseriesSummary { values, min, max })
    }

    /// The embed that shows a series. `plot` is the plot of its rates, and
    /// `min_text` and `max_text` are its smallest and largest rate with two
    /// decimal places.
    pub fn construct_timeseries_embed(&self, plot: String, min_text: String, max_text: String) -> (embed:
        Embed)
        ensures
            embed@ == timeseries_embed(plot@, min_text@, max_text@),
    {
        let mut fields: Vec<EmbedField> = Vec::new();
        fields.push(EmbedField::new("Min", min_text, true));
        fields.push(EmbedField::new("Max", max_text, true));
        let embed = Embed {
            title: "Exchange Rate Timeseries".to_owned(),
            description: plot,
            url: None,
            thumbnail: None,
            footer: None,
            fields,
            color: Some(EXCHANGE_COLOR),
        };
        assert(embed@.fields =~= timeseries_embed(plot@, min_text@, max_text@).fields);
        embed
    }
}

// ---------------------------------------------------------------------------
// Laws
// ---------------------------------------------------------------------------

/// Defaults that were set are the defaults that are found: after the writes
/// of `set_default` have reached the store, a request of the same user that
/// asks for no currency and no precision resolves to the currencies and the
/// precision that were set.
pub proof fn lemma_set_defaults_then_resolve(
    store: Map<Seq<char>, Seq<char>>,
    username: Seq<char>,
    from: Seq<char>,
    to: Seq<char>,
    precision: usize,
)
    ensures
        ({
            let after = store_after(store, default_writes(username, from, to, precision));
            let stored = stored_preferences(after, username);
            &&& spec_resolve_from(None, stored.currency_from) == from
            &&& spec_resolve_to(None, stored.currency_to) == to
            &&& spec_resolve_precision(None, stored.currency_precision) == precision
        }),
{
    let writes = default_writes(username, from, to, precision);
    lemma_preference_keys_differ(username);
    lemma_parse_decimal_text(precision);
    let two = writes.drop_last();
    let one = two.drop_last();
    assert(one.drop_last() =~= Seq::<(Seq<char>, Seq<char>)>::empty());
    assert(store_after(store, one.drop_last()) == store);
    assert(store_after(store, one) == store.insert(writes[0].0, writes[0].1));
    assert(store_after(store, two) == store_after(store, one).insert(writes[1].0, writes[1].1));
    assert(store_after(store, writes) == store_after(store, two).insert(writes[2].0, writes[2].1));
}

/// A precision above twelve is shown with twelve decimal places, and any
/// other with as many as it says.
pub proof fn lemma_display_precision(precision: usize)
    ensures
        precision > MAX_PRECISION ==> spec_display_precision(precision) == MAX_PRECISION,
        precision <= MAX_PRECISION ==> spec_display_precision(precision) == precision,
{
}

} // verus!
