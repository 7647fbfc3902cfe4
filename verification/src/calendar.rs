//! Day counts and calendar lookups on Unix-epoch millisecond timestamps.
//!
//! A cash-flow date is carried as an `i64`: milliseconds since
//! 1970-01-01T00:00:00 UTC. The calendar fields of such a timestamp (its
//! proleptic-Gregorian year, month and day of month in UTC) come from the
//! `chrono` crate through trusted wrappers; everything built on top of them —
//! the same-day test, the whole-year difference and the day count — is
//! verified here.
use vstd::arithmetic::div_mod::lemma_mod_multiples_vanish;
use vstd::prelude::*;

use chrono::Datelike;
use chrono::TimeZone;

verus! {

/// Milliseconds in one civil day.
pub const MILLIS_PER_DAY: i64 = 86_400_000;

/// First millisecond of the earliest calendar day that `chrono` can
/// represent (day -96_465_292 relative to the epoch, in year -262143).
pub const MIN_TIMESTAMP_MILLIS: i64 = -8_334_601_228_800_000;

/// Last millisecond of the latest calendar day that `chrono` can represent
/// (day 95_026_236 relative to the epoch, in year 262142).
pub const MAX_TIMESTAMP_MILLIS: i64 = 8_210_266_876_799_999;

/// A timestamp maps to a valid calendar date-time exactly when it lies in
/// the representable range.
pub open spec fn timestamp_in_range(t: i64) -> bool {
    MIN_TIMESTAMP_MILLIS <= t <= MAX_TIMESTAMP_MILLIS
}

/// Does `t` map to a valid calendar date-time?
pub fn timestamp_representable(t: i64) -> (b: bool)
    ensures
        b == timestamp_in_range(t),
{
    MIN_TIMESTAMP_MILLIS <= t && t <= MAX_TIMESTAMP_MILLIS
}

/// The proleptic-Gregorian year, in UTC, of the calendar date-time that the
/// timestamp `t` denotes.
pub uninterp spec fn year_of(t: i64) -> int;

/// The month (1 to 12), in UTC, of the calendar date-time that the timestamp
/// `t` denotes.
pub uninterp spec fn month_of(t: i64) -> int;

/// The day of month (1 to 31), in UTC, of the calendar date-time that the
/// timestamp `t` denotes.
pub uninterp spec fn day_of_month_of(t: i64) -> int;

/// Relies on `chrono::TimeZone::timestamp_millis_opt` and
/// `chrono::Datelike::year`: the UTC year of a representable timestamp,
/// a function of the timestamp alone.
#[verifier::external_body]
fn year_of_millis(t: i64) -> (y: i32)
    requires
        timestamp_in_range(t),
    ensures
        y as int == year_of(t),
{
    chrono::Utc.timestamp_millis_opt(t).unwrap().year()
}

/// Relies on `chrono::TimeZone::timestamp_millis_opt` and
/// `chrono::Datelike::month`: the UTC month of a representable timestamp,
/// a function of the timestamp alone.
#[verifier::external_body]
fn month_of_millis(t: i64) -> (m: u32)
    requires
        timestamp_in_range(t),
    ensures
        m as int == month_of(t),
{
    chrono::Utc.timestamp_millis_opt(t).unwrap().month()
}

/// Relies on `chrono::TimeZone::timestamp_millis_opt` and
/// `chrono::Datelike::day`: the UTC day of month of a representable
/// timestamp, a function of the timestamp alone.
#[verifier::external_body]
fn day_of_millis(t: i64) -> (d: u32)
    requires
        timestamp_in_range(t),
    ensures
        d as int == day_of_month_of(t),
{
    chrono::Utc.timestamp_millis_opt(t).unwrap().day()
}

/// Two timestamps fall on the same calendar day (in UTC).
pub open spec fn same_civil_day(t1: i64, t2: i64) -> bool {
    year_of(t1) == year_of(t2) && month_of(t1) == month_of(t2) && day_of_month_of(t1)
        == day_of_month_of(t2)
}

/// Do the two timestamps fall on the same calendar day?
pub fn same_day(t1: i64, t2: i64) -> (b: bool)
    requires
        timestamp_in_range(t1),
        timestamp_in_range(t2),
    ensures
        b == same_civil_day(t1, t2),
{
    year_of_millis(t1) == year_of_millis(t2) && month_of_millis(t1) == month_of_millis(t2)
        && day_of_millis(t1) == day_of_millis(t2)
}

/// The time of day of timestamp `t`, as milliseconds since UTC midnight.
pub open spec fn millis_of_day(t: i64) -> int {
    (t as int) % (MILLIS_PER_DAY as int)
}

/// Within-year position of `t1` strictly before that of `t2`: the triple
/// (month, day of month, time of day) compared lexicographically, the rule
/// by which a whole year is counted as completed.
pub open spec fn earlier_in_year(t1: i64, t2: i64) -> bool {
    ||| month_of(t1) < month_of(t2)
    ||| (month_of(t1) == month_of(t2) && day_of_month_of(t1) < day_of_month_of(t2))
    ||| (month_of(t1) == month_of(t2) && day_of_month_of(t1) == day_of_month_of(t2)
        && millis_of_day(t1) < millis_of_day(t2))
}

/// Signed count of completed twelve-month periods from `earlier` to `later`:
/// the year difference, less one when `later` has not yet reached the
/// within-year position of `earlier`.
pub open spec fn years_shift(earlier: i64, later: i64) -> int {
    if earlier_in_year(later, earlier) {
        year_of(later) - year_of(earlier) - 1
    } else {
        year_of(later) - year_of(earlier)
    }
}

/// Milliseconds since UTC midnight of the day of `t`.
fn exec_millis_of_day(t: i64) -> (m: i64)
    requires
        timestamp_in_range(t),
    ensures
        m as int == millis_of_day(t),
{
    let shifted: i64 = t - MIN_TIMESTAMP_MILLIS;
    proof {
        lemma_mod_multiples_vanish(
            -96_465_292,
            shifted as int,
            MILLIS_PER_DAY as int,
        );
        assert(MILLIS_PER_DAY as int * -96_465_292 + shifted as int == t as int);
    }
    shifted % MILLIS_PER_DAY
}

/// Whole calendar years from `earlier` to `later`: `Some` of the completed
/// twelve-month count when it is not negative, `None` when `later` precedes
/// the within-year position of `earlier`.
pub fn whole_years_between(earlier: i64, later: i64) -> (r: Option<u32>)
    requires
        timestamp_in_range(earlier),
        timestamp_in_range(later),
    ensures
        r is Some <==> years_shift(earlier, later) >= 0,
        r matches Some(v) ==> v as int == years_shift(earlier, later),
{
    let y_earlier: i64 = year_of_millis(earlier) as i64;
    let y_later: i64 = year_of_millis(later) as i64;
    let m_earlier: u32 = month_of_millis(earlier);
    let m_later: u32 = month_of_millis(later);
    let d_earlier: u32 = day_of_millis(earlier);
    let d_later: u32 = day_of_millis(later);
    let later_not_reached: bool = m_later < m_earlier || (m_later == m_earlier && d_later
        < d_earlier) || (m_later == m_earlier && d_later == d_earlier && exec_millis_of_day(later)
        < exec_millis_of_day(earlier));
    let shift: i64 = if later_not_reached {
        y_later - y_earlier - 1
    } else {
        y_later - y_earlier
    };
    if shift >= 0 {
        Some(shift as u32)
    } else {
        None
    }
}

/// Whole days from `earlier` to `later`, fractional days dropped.
pub open spec fn elapsed_day_count(earlier: i64, later: i64) -> int {
    (later - earlier) / (MILLIS_PER_DAY as int)
}

/// Whole days from `earlier` to `later`, fractional days dropped.
pub fn days_between(earlier: i64, later: i64) -> (d: i64)
    requires
        timestamp_in_range(earlier),
        timestamp_in_range(later),
        earlier <= later,
    ensures
        d == elapsed_day_count(earlier, later),
{
    (later - earlier) / MILLIS_PER_DAY
}

} // verus!
