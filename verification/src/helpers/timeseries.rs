//! Rate tables: the rates of one day by currency code, and a series of such
//! days kept in the order of their dates.

use crate::number::Number;
use crate::text::{
    lemma_text_lt_irreflexive, lemma_text_lt_total, lemma_text_lt_transitive, text_before, text_lt,
    to_chars,
};
use vstd::prelude::*;

verus! {

/// The rate of one currency.
#[derive(Clone, Debug, PartialEq, Eq)]
pub struct CurrencyRate {
    pub code: String,
    pub rate: Number,
}

/// The rates of one day.
#[derive(Clone, Debug, PartialEq, Eq)]
pub struct DailyRates {
    pub date: String,
    pub rates: Vec<CurrencyRate>,
}

/// What a `DailyRates` holds, as mathematical values.
pub struct DailyRatesView {
    pub date: Seq<char>,
    pub rates: Seq<(Seq<char>, Number)>,
}

impl View for CurrencyRate {
    type V = (Seq<char>, Number);

    open spec fn view(&self) -> (Seq<char>, Number) {
        (self.code@, self.rate)
    }
}

/// The views of a table of rates.
pub open spec fn rate_views(rates: Seq<CurrencyRate>) -> Seq<(Seq<char>, Number)> {
    rates.map_values(|rate: CurrencyRate| rate@)
}

impl View for DailyRates {
    type V = DailyRatesView;

    open spec fn view(&self) -> DailyRatesView {
        DailyRatesView { date: self.date@, rates: rate_views(self.rates@) }
    }
}

/// The views of a list of days.
pub open spec fn day_views(days: Seq<DailyRates>) -> Seq<DailyRatesView> {
    days.map_values(|day: DailyRates| day@)
}

/// The rate that a table gives for `code`: that of the first entry with this
/// code, if there is one.
pub open spec fn rate_of(table: Seq<(Seq<char>, Number)>, code: Seq<char>) -> Option<Number>
    decreases table.len(),
{
    if table.len() == 0 {
        None
    } else if table[0].0 == code {
        Some(table[0].1)
    } else {
        rate_of(table.drop_first(), code)
    }
}

/// Looks a currency up in a table of rates.
pub fn rate_for(rates: &Vec<CurrencyRate>, code: &str) -> (rate: Option<Number>)
    ensures
        rate == rate_of(rate_views(rates@), code@),
{
    let ghost table = rate_views(rates@);
    let mut at: usize = 0;
    assert(table.skip(0) =~= table);
    while at < rates.len()
        invariant
            at <= rates.len(),
            table == rate_views(rates@),
            rate_of(table, code@) == rate_of(table.skip(at as int), code@),
        decreases rates.len() - at,
    {
        let ghost rest = table.skip(at as int);
        assert(rest[0] == rates@[at as int]@);
        if *rates[at].code.as_str() == *code {
            return Some(rates[at].rate);
        }
        assert(rest.drop_first() =~= table.skip(at + 1));
        at += 1;
    }
    None
}

/// A copy of a table of rates.
pub fn copy_rates(rates: &Vec<CurrencyRate>) -> (copy: Vec<CurrencyRate>)
    ensures
        rate_views(copy@) == rate_views(rates@),
{
    let mut copy: Vec<CurrencyRate> = Vec::new();
    let mut at: usize = 0;
    while at < rates.len()
        invariant
            at <= rates.len(),
            copy.len() == at,
            forall|i: int| 0 <= i < at ==> (#[trigger] copy@[i])@ == rates@[i]@,
        decreases rates.len() - at,
    {
        copy.push(CurrencyRate { code: rates[at].code.clone(), rate: rates[at].rate });
        at += 1;
    }
    assert(rate_views(copy@) =~= rate_views(rates@));
    copy
}

/// Whether the dates of a list of days strictly ascend. Such a list holds
/// no date twice.
pub open spec fn dates_ascend(days: Seq<DailyRatesView>) -> bool {
    forall|i: int, j: int|
        0 <= i < j < days.len() ==> text_lt((#[trigger] days[i]).date, (#[trigger] days[j]).date)
}

/// How many of the leading days come before `date`. In an ascending list
/// this is where a day of that date belongs.
pub open spec fn day_position(days: Seq<DailyRatesView>, date: Seq<char>) -> int
    decreases days.len(),
{
    if days.len() == 0 || !text_lt(days[0].date, date) {
        0
    } else {
        1 + day_position(days.drop_first(), date)
    }
}

/// The list with `day` put where its date belongs. A day of the same date is
/// replaced.
pub open spec fn insert_day(days: Seq<DailyRatesView>, day: DailyRatesView) -> Seq<DailyRatesView> {
    let at = day_position(days, day.date);
    if at < days.len() && days[at].date == day.date {
        days.update(at, day)
    } else {
        days.insert(at, day)
    }
}

/// The rates of `code` day by day, in the order of the days; nothing when a
/// day has no rate for it.
pub open spec fn series_of(days: Seq<DailyRatesView>, code: Seq<char>) -> Option<Seq<Number>> {
    if forall|i: int| 0 <= i < days.len() ==> rate_of((#[trigger] days[i]).rates, code) is Some {
        Some(Seq::new(days.len(), |i: int| rate_of(days[i].rates, code)->0))
    } else {
        None
    }
}

/// `day_position` is within bounds, every day before it comes before
/// `date`, and the day at it does not.
pub proof fn lemma_day_position(days: Seq<DailyRatesView>, date: Seq<char>)
    ensures
        0 <= day_position(days, date) <= days.len(),
        forall|k: int|
            0 <= k < day_position(days, date) ==> text_lt((#[trigger] days[k]).date, date),
        day_position(days, date) < days.len() ==> !text_lt(
            days[day_position(days, date)].date,
            date,
        ),
    decreases days.len(),
{
    if days.len() == 0 || !text_lt(days[0].date, date) {
    } else {
        let tail = days.drop_first();
        lemma_day_position(tail, date);
        let at = day_position(tail, date);
        assert forall|k: int| 0 <= k < 1 + at implies text_lt((#[trigger] days[k]).date, date) by {
            if k > 0 {
                assert(tail[k - 1] == days[k]);
            }
        }
        if 1 + at < days.len() {
            assert(tail[at] == days[1 + at]);
        }
    }
}

/// Any position with the properties of `lemma_day_position` is the position.
pub proof fn lemma_day_position_unique(days: Seq<DailyRatesView>, date: Seq<char>, at: int)
    requires
        0 <= at <= days.len(),
        forall|k: int| 0 <= k < at ==> text_lt((#[trigger] days[k]).date, date),
        at < days.len() ==> !text_lt(days[at].date, date),
    ensures
        day_position(days, date) == at,
{
    lemma_day_position(days, date);
    let first = day_position(days, date);
    if first < at {
        assert(text_lt(days[first].date, date));
    } else if at < first {
        assert(text_lt(days[at].date, date));
    }
}

/// A list whose dates ascend holds each date once.
pub proof fn lemma_ascending_dates_differ(days: Seq<DailyRatesView>, i: int, j: int)
    requires
        dates_ascend(days),
        0 <= i < days.len(),
        0 <= j < days.len(),
        i != j,
    ensures
        days[i].date != days[j].date,
{
    lemma_text_lt_irreflexive(days[i].date);
    if i < j {
        assert(text_lt(days[i].date, days[j].date));
    } else {
        assert(text_lt(days[j].date, days[i].date));
    }
}

/// Putting a day into an ascending list leaves it ascending.
pub proof fn lemma_insert_day_ascends(days: Seq<DailyRatesView>, day: DailyRatesView)
    requires
        dates_ascend(days),
    ensures
        dates_ascend(insert_day(days, day)),
{
    lemma_day_position(days, day.date);
    let at = day_position(days, day.date);
    let after = insert_day(days, day);
    if at < days.len() && days[at].date == day.date {
        assert forall|i: int, j: int| 0 <= i < j < after.len() implies text_lt(
            (#[trigger] after[i]).date,
            (#[trigger] after[j]).date,
        ) by {
            assert(after[i].date == days[i].date);
            assert(after[j].date == days[j].date);
        }
    } else {
        // Every day from `at` on comes after the new one.
        assert forall|k: int| at <= k < days.len() implies text_lt(
            day.date,
            (#[trigger] days[k]).date,
        ) by {
            lemma_text_lt_total(days[at].date, day.date);
            if k > at {
                lemma_text_lt_transitive(day.date, days[at].date, days[k].date);
            }
        }
        assert forall|i: int, j: int| 0 <= i < j < after.len() implies text_lt(
            (#[trigger] after[i]).date,
            (#[trigger] after[j]).date,
        ) by {
            if j < at {
                assert(after[i] == days[i] && after[j] == days[j]);
            } else if j == at {
                assert(after[i] == days[i]);
            } else if i < at {
                assert(after[i] == days[i] && after[j] == days[j - 1]);
            } else if i == at {
                assert(after[j] == days[j - 1]);
            } else {
                assert(after[i] == days[i - 1] && after[j] == days[j - 1]);
            }
        }
    }
}

/// Whether the date of `day` comes before the date whose characters are `date`.
fn comes_before(day: &DailyRates, date: &Vec<char>) -> (before: bool)
    ensures
        before == text_lt(day@.date, date@),
{
    let own = to_chars(day.date.as_str());
    text_before(&own, date)
}

/// A series of daily rate tables, one for each date, kept in the order of
/// the dates.
#[derive(Debug, PartialEq, Eq)]
pub struct TimeseriesResponse {
    days: Vec<DailyRates>,
}

impl View for TimeseriesResponse {
    type V = Seq<DailyRatesView>;

    closed spec fn view(&self) -> Seq<DailyRatesView> {
        day_views(self.days@)
    }
}

impl TimeseriesResponse {
    /// The days stand in the order of their dates, each date once.
    #[verifier::type_invariant]
    spec fn ordered(self) -> bool {
        dates_ascend(day_views(self.days@))
    }

    /// A series without days.
    pub fn new() -> (series: TimeseriesResponse)
        ensures
            series@ == Seq::<DailyRatesView>::empty(),
    {
        let series = TimeseriesResponse { days: Vec::new() };
        assert(day_views(series.days@) =~= Seq::<DailyRatesView>::empty());
        series
    }

    /// The number of days.
    pub fn len(&self) -> (count: usize)
        ensures
            count == self@.len(),
    {
        self.days.len()
    }

    /// Whether the series has no days.
    pub fn is_empty(&self) -> (empty: bool)
        ensures
            empty == (self@.len() == 0),
    {
        self.days.len() == 0
    }

    /// The days of the series, in the order of their dates.
    pub fn days(&self) -> (days: &Vec<DailyRates>)
        ensures
            day_views(days@) == self@,
            dates_ascend(self@),
    {
        proof {
            use_type_invariant(self);
        }
        &self.days
    }

    /// Puts the rates of `date` into the series. Rates that the series held
    /// for this date are replaced.
    pub fn insert(&mut self, date: String, rates: Vec<CurrencyRate>)
        ensures
            final(self)@ == insert_day(
                old(self)@,
                DailyRatesView { date: date@, rates: rate_views(rates@) },
            ),
            dates_ascend(final(self)@),
    {
        let mut taken = TimeseriesResponse::new();
        core::mem::swap(self, &mut taken);
        proof {
            use_type_invariant(&taken);
        }
        let mut days = taken.days;
        let ghost before = day_views(days@);
        let ghost day = DailyRatesView { date: date@, rates: rate_views(rates@) };
        let wanted = to_chars(date.as_str());
        let mut at: usize = 0;
        while at < days.len() && comes_before(&days[at], &wanted)
            invariant
                at <= days.len(),
                before == day_views(days@),
                wanted@ == date@,
                forall|k: int| 0 <= k < at ==> text_lt((#[trigger] before[k]).date, date@),
            decreases days.len() - at,
        {
            assert(before[at as int] == days@[at as int]@);
            at += 1;
        }
        proof {
            if at < before.len() {
                assert(before[at as int] == days@[at as int]@);
            }
            lemma_day_position_unique(before, date@, at as int);
            lemma_insert_day_ascends(before, day);
        }
        let entry = DailyRates { date, rates };
        if at < days.len() && days[at].date == entry.date {
            days.set(at, entry);
            assert(day_views(days@) =~= before.update(at as int, day));
        } else {
            days.insert(at, entry);
            assert(day_views(days@) =~= before.insert(at as int, day));
        }
        *self = TimeseriesResponse { days };
    }

    /// The rates of `code` day by day, in the order of the dates; `None`
    /// when a day has no rate for it.
    pub fn series_for(&self, code: &str) -> (series: Option<Vec<Number>>)
        ensures
            match series {
                Some(values) => series_of(self@, code@) == Some(values@),
                None => series_of(self@, code@) is None,
            },
            dates_ascend(self@),
    {
        proof {
            use_type_invariant(self);
        }
        let ghost days = day_views(self.days@);
        let mut values: Vec<Number> = Vec::new();
        let mut at: usize = 0;
        while at < self.days.len()
            invariant
                at <= self.days.len(),
                days == day_views(self.days@),
                dates_ascend(days),
                values.len() == at,
                forall|i: int|
                    0 <= i < at ==> rate_of((#[trigger] days[i]).rates, code@) == Some(values@[i]),
            decreases self.days.len() - at,
        {
            assert(days[at as int] == self.days@[at as int]@);
            match rate_for(&self.days[at].rates, code) {
                Some(rate) => {
                    values.push(rate);
                },
                None => {
                    return None;
                },
            }
            at += 1;
        }
        assert(series_of(days, code@)->0 =~= values@);
        Some(values)
    }
}

impl Clone for TimeseriesResponse {
    /// A copy of the series.
    fn clone(&self) -> (copy: TimeseriesResponse)
        ensures
            copy@ == self@,
    {
        proof {
            use_type_invariant(self);
        }
        let mut days: Vec<DailyRates> = Vec::new();
        let mut at: usize = 0;
        while at < self.days.len()
            invariant
                at <= self.days.len(),
                days.len() == at,
                forall|i: int| 0 <= i < at ==> (#[trigger] days@[i])@ == self.days@[i]@,
            decreases self.days.len() - at,
        {
            let day = DailyRates {
                date: self.days[at].date.clone(),
                rates: copy_rates(&self.days[at].rates),
            };
            days.push(day);
            at += 1;
        }
        assert(day_views(days@) =~= day_views(self.days@));
        TimeseriesResponse { days }
    }
}

} // verus!
