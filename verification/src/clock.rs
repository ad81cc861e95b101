//! The UTC calendar, as chrono computes it.

use vstd::prelude::*;

verus! {

/// Year, month and day of month (the last two counted from 1) of the UTC
/// date on which the Unix time `now` falls; `None` where chrono cannot
/// represent that time.
pub uninterp spec fn utc_date(now: i64) -> Option<(i32, u32, u32)>;

/// The weekday, counted from Sunday as 0, of the first day of `month`
/// (counted from 1) of `year`; `None` where chrono has no such date.
pub uninterp spec fn month_start(year: i32, month: u32) -> Option<u32>;

/// Calls `chrono::DateTime::from_timestamp` with `now` seconds and no
/// nanoseconds, and reads `year()`, `month()` and `day()` off the date it
/// returns. Trusted: the triple is a function of `now` alone, named
/// `utc_date`.
#[verifier::external_body]
pub(crate) fn date_of(now: i64) -> (date: Option<(i32, u32, u32)>)
    ensures
        date == utc_date(now),
{
    chrono::DateTime::from_timestamp(now, 0).map(
        |t| (chrono::Datelike::year(&t), chrono::Datelike::month(&t), chrono::Datelike::day(&t)),
    )
}

/// Calls `chrono::NaiveDate::from_ymd_opt` for the first day of the month
/// and takes `num_days_from_sunday()` of its `weekday()`. Trusted: the
/// number is a function of year and month alone, named `month_start`, and
/// is one of the seven from 0 to 6.
#[verifier::external_body]
pub(crate) fn first_weekday(year: i32, month: u32) -> (offset: Option<u32>)
    ensures
        offset == month_start(year, month),
        offset matches Some(days) ==> days < 7,
{
    chrono::NaiveDate::from_ymd_opt(year, month, 1).map(
        |d| chrono::Datelike::weekday(&d).num_days_from_sunday(),
    )
}

/// Whether the system clock can show the Unix time `now`: it is not before
/// the epoch, and chrono has a date for it. chrono counts the days of a
/// time in an `i32`, so such a time lies below 2^31 days, which is fewer
/// than 2^48 seconds.
pub open spec fn on_clock(now: i64) -> bool {
    0 <= now < 0x1_0000_0000_0000
}

/// Calls `chrono::Utc::now` and takes its `timestamp()`: the seconds since
/// the Unix epoch on the system clock. chrono stops the program where the
/// system clock stands before the epoch, and where it has no date for the
/// time. Trusted: a time that comes back is therefore neither before the
/// epoch nor beyond chrono's dates; nothing else is claimed of it.
#[verifier::external_body]
pub(crate) fn unix_now() -> (now: i64)
    ensures
        on_clock(now),
{
    chrono::Utc::now().timestamp()
}

} // verus!
