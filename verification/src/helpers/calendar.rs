//! Calendar dates in UTC, as text.

use crate::text::opt_text;
use vstd::prelude::*;

verus! {

/// The UTC calendar date, written `YYYY-MM-DD`, of the day `days_back` days
/// before the day of the moment `seconds` after the epoch; nothing where the
/// moment or that day is beyond the calendar's range.
pub uninterp spec fn utc_date_text(seconds: i64, days_back: i64) -> Option<Seq<char>>;

/// A date some days before a moment, through chrono:
/// `DateTime::from_timestamp` makes the moment from the seconds since the
/// epoch, `naive_utc` and `date` take its UTC calendar date,
/// `TimeDelta::try_days` and `NaiveDate::checked_sub_signed` go back the
/// given number of days, and `format` writes the date with the pattern
/// `%Y-%m-%d`. Each step that can run out of range yields nothing then, and
/// so does this function. The text depends on the two numbers alone.
#[verifier::external_body]
pub(crate) fn utc_date_before(seconds: i64, days_back: i64) -> (text: Option<String>)
    ensures
        opt_text(text) == utc_date_text(seconds, days_back),
{
    let today = chrono::DateTime::from_timestamp(seconds, 0)?.naive_utc().date();
    let day = today.checked_sub_signed(chrono::TimeDelta::try_days(days_back)?)?;
    Some(day.format("%Y-%m-%d").to_string())
}

} // verus!
