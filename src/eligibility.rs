//! The age-eligibility predicate, evaluated on a birthdate and a current time,
//! both in seconds since the Unix epoch.
use vstd::prelude::*;

verus! {

/// The fixed threshold, in whole years.
pub const MINIMUM_AGE: u64 = 21;

/// A year of 365 days, in seconds.
pub const SECONDS_IN_YEAR: u64 = 31_536_000;

/// One day, in seconds.
pub const SECONDS_IN_DAY: u64 = 86_400;

/// Gregorian leap-year rule.
pub open spec fn leap_year(year: int) -> bool {
    (year % 4 == 0 && year % 100 != 0) || year % 400 == 0
}

pub open spec fn days_in_year(year: int) -> int {
    if leap_year(year) {
        366
    } else {
        365
    }
}

/// Days from 1970-01-01 to the first day of `year`.
pub open spec fn days_before(year: int) -> int
    decreases year - 1970,
{
    if year <= 1970 {
        0
    } else {
        days_before(year - 1) + days_in_year(year - 1)
    }
}

/// The calendar year as approximated from the day count with 365-day years.
pub open spec fn approx_year(timestamp: u64) -> int {
    1970 + (timestamp / SECONDS_IN_DAY) as int / 365
}

/// Start of the approximate year, in seconds, wrapped modulo 2^64.
pub open spec fn year_start_seconds(timestamp: u64) -> u64 {
    (days_before(approx_year(timestamp)) as u64).wrapping_mul(SECONDS_IN_DAY)
}

/// Whether the timestamp lies at or after the start of its approximate year,
/// so that the day-of-year subtraction does not wrap.
pub open spec fn year_start_reached(timestamp: u64) -> bool {
    days_before(approx_year(timestamp)) * SECONDS_IN_DAY <= timestamp
}

/// The day-of-year position of a timestamp: days since the start of its
/// approximate year, plus one. The subtraction wraps modulo 2^64, which keeps
/// the value compatible with existing receipts.
pub open spec fn day_of_year_of(timestamp: u64) -> int {
    (timestamp.wrapping_sub(year_start_seconds(timestamp)) / SECONDS_IN_DAY) as int + 1
}

/// Whole 365-day years from the birthdate to the current time; zero when the
/// current time is earlier.
pub open spec fn whole_years(birthdate: u64, current: u64) -> int {
    if current >= birthdate {
        (current - birthdate) as int / SECONDS_IN_YEAR as int
    } else {
        0
    }
}

/// Whole 365-day years between the two timestamps, less one when the current
/// day-of-year is still before the birthdate's; never below zero.
pub open spec fn age_years(birthdate: u64, current: u64) -> int {
    let whole = whole_years(birthdate, current);
    if day_of_year_of(current) < day_of_year_of(birthdate) && whole > 0 {
        whole - 1
    } else {
        whole
    }
}

pub open spec fn eligible(birthdate: u64, current: u64) -> bool {
    age_years(birthdate, current) >= MINIMUM_AGE
}

pub fn is_leap_year(year: u64) -> (r: bool)
    ensures
        r == leap_year(year as int),
{
    (year % 4 == 0 && year % 100 != 0) || (year % 400 == 0)
}

proof fn lemma_days_before_bounds(year: int)
    requires
        year >= 1970,
    ensures
        365 * (year - 1970) <= days_before(year) <= 366 * (year - 1970),
    decreases year - 1970,
{
    if year > 1970 {
        lemma_days_before_bounds(year - 1);
    }
}

pub fn day_of_year(timestamp: u64) -> (r: u64)
    ensures
        r as int == day_of_year_of(timestamp),
{
    let days_since_epoch: u64 = timestamp / SECONDS_IN_DAY;
    let year: u64 = 1970 + days_since_epoch / 365;
    let mut year_start: u64 = 0;
    let mut y: u64 = 1970;
    while y < year
        invariant
            1970 <= y <= year,
            year as int == approx_year(timestamp),
            year - 1970 <= u64::MAX / SECONDS_IN_DAY / 365,
            year_start as int == days_before(y as int),
        decreases year - y,
    {
        proof {
            lemma_days_before_bounds(y as int);
            lemma_days_before_bounds(y + 1);
        }
        year_start = year_start + if is_leap_year(y) {
            366
        } else {
            365
        };
        y = y + 1;
    }
    let year_start_secs: u64 = year_start.wrapping_mul(SECONDS_IN_DAY);
    let elapsed: u64 = timestamp.wrapping_sub(year_start_secs);
    elapsed / SECONDS_IN_DAY + 1
}

/// The verdict that the attested computation commits: `Some(true)` when the
/// age reaches the minimum, and `None` (no verdict at all) otherwise.
pub fn eligibility_verdict(birthdate_timestamp: u64, current_timestamp: u64) -> (r: Option<bool>)
    ensures
        r == (if eligible(birthdate_timestamp, current_timestamp) {
            Some(true)
        } else {
            None::<bool>
        }),
{
    let age_in_seconds: u64 = current_timestamp.saturating_sub(birthdate_timestamp);
    let mut age: u64 = age_in_seconds / SECONDS_IN_YEAR;
    let birthdate_day_of_year: u64 = day_of_year(birthdate_timestamp);
    let current_day_of_year: u64 = day_of_year(current_timestamp);
    if current_day_of_year < birthdate_day_of_year {
        age = age.saturating_sub(1);
    }
    if age >= MINIMUM_AGE {
        Some(true)
    } else {
        None
    }
}

/// Where the timestamp has reached the start of its approximate year, its
/// day-of-year is the plain count of days since that start, plus one.
pub proof fn lemma_day_of_year_unwrapped(timestamp: u64)
    requires
        year_start_reached(timestamp),
    ensures
        day_of_year_of(timestamp) == (timestamp / SECONDS_IN_DAY) as int - days_before(
            approx_year(timestamp),
        ) + 1,
{
    let days = (timestamp / SECONDS_IN_DAY) as int;
    let start = days_before(approx_year(timestamp));
    lemma_days_before_bounds(approx_year(timestamp));
    assert(start >= 0);
    let secs = year_start_seconds(timestamp);
    assert(secs as int == start * 86400) by {
        assert(0 <= start * 86400 <= u64::MAX);
    }
    let elapsed = timestamp.wrapping_sub(secs);
    assert(elapsed as int == timestamp - start * 86400);
    assert((timestamp - start * 86400) / 86400 == timestamp / 86400 - start) by (nonlinear_arith)
        requires
            start >= 0,
            start * 86400 <= timestamp,
    ;
}

/// The predicate succeeds exactly when more than the minimum number of whole
/// 365-day years separate the two timestamps, or exactly that many and the
/// current day-of-year is not before the birthdate's. A current time before
/// the birthdate never succeeds.
pub proof fn lemma_eligibility_threshold(birthdate: u64, current: u64)
    ensures
        current >= birthdate ==> (eligible(birthdate, current) <==> (whole_years(
            birthdate,
            current,
        ) > MINIMUM_AGE || (whole_years(birthdate, current) == MINIMUM_AGE && day_of_year_of(
            current,
        ) >= day_of_year_of(birthdate)))),
        current < birthdate ==> !eligible(birthdate, current),
{
}

/// Within one approximate year, once its start is reached, the day-of-year
/// never decreases as time goes on.
pub proof fn lemma_day_of_year_monotonic(t1: u64, t2: u64)
    requires
        t1 <= t2,
        approx_year(t1) == approx_year(t2),
        year_start_reached(t1),
    ensures
        day_of_year_of(t1) <= day_of_year_of(t2),
{
    assert(t1 / SECONDS_IN_DAY <= t2 / SECONDS_IN_DAY) by (nonlinear_arith)
        requires
            t1 <= t2,
    ;
    lemma_day_of_year_unwrapped(t1);
    lemma_day_of_year_unwrapped(t2);
}

/// Stepping one day into the next approximate year resets the day-of-year:
/// it falls by the length of the year that ended, less one.
pub proof fn lemma_day_of_year_resets(t1: u64, t2: u64)
    requires
        t2 / SECONDS_IN_DAY == t1 / SECONDS_IN_DAY + 1,
        approx_year(t2) == approx_year(t1) + 1,
        year_start_reached(t1),
        year_start_reached(t2),
    ensures
        day_of_year_of(t2) == day_of_year_of(t1) + 1 - days_in_year(approx_year(t1)),
        day_of_year_of(t2) < day_of_year_of(t1),
{
    lemma_day_of_year_unwrapped(t1);
    lemma_day_of_year_unwrapped(t2);
}

} // verus!
