//! Proleptic Gregorian calendar arithmetic for Unix day counts.
use vstd::prelude::*;

verus! {

/// Whether `y` is a leap year of the Gregorian calendar.
pub open spec fn is_leap_year(y: int) -> bool {
    y % 4 == 0 && (y % 100 != 0 || y % 400 == 0)
}

/// Number of days of month `m` (1..=12) of year `y`.
pub open spec fn days_in_month(y: int, m: int) -> int {
    if m == 2 {
        if is_leap_year(y) { 29 } else { 28 }
    } else if m == 4 || m == 6 || m == 9 || m == 11 {
        30
    } else {
        31
    }
}

/// Days of year `y` that precede the first day of month `m`.
pub open spec fn days_before_month(y: int, m: int) -> int
    decreases m,
{
    if m <= 1 {
        0
    } else {
        days_before_month(y, m - 1) + days_in_month(y, m - 1)
    }
}

/// Number of leap years among the years `1..=y`.
pub open spec fn leap_years_through(y: int) -> int {
    y / 4 - y / 100 + y / 400
}

/// Days from 1970-01-01 to the first day of year `y`.
pub open spec fn days_before_year(y: int) -> int {
    365 * (y - 1970) + leap_years_through(y - 1) - leap_years_through(1969)
}

/// A real calendar date.
pub open spec fn is_valid_date(y: int, m: int, d: int) -> bool {
    1 <= m <= 12 && 1 <= d <= days_in_month(y, m)
}

/// Days from 1970-01-01 to the date `y-m-d`.
pub open spec fn days_since_epoch(y: int, m: int, d: int) -> int {
    days_before_year(y) + days_before_month(y, m) + d - 1
}

proof fn lemma_year_of_era(doe: u32)
    by (bit_vector)
    requires
        doe < 146097,
    ensures
        ({
            let yoe: u32 = ((doe - doe / 1460 + doe / 36524 - doe / 146096) / 365) as u32;
            &&& yoe < 400
            &&& 365 * yoe + yoe / 4 - yoe / 100 <= doe
            &&& doe - (365 * yoe + yoe / 4 - yoe / 100) < 365 + (if (yoe + 1) % 4 == 0 && ((yoe
                + 1) % 100 != 0 || (yoe + 1) % 400 == 0) {
                1u32
            } else {
                0u32
            })
        }),
{
}

proof fn lemma_month_of_year(doy: u32)
    by (bit_vector)
    requires
        doy < 366,
    ensures
        ({
            let mp: u32 = ((5 * doy + 2) / 153) as u32;
            let start: u32 = ((153 * mp + 2) / 5) as u32;
            &&& mp < 12
            &&& start <= doy
            &&& mp == 0 ==> doy - start < 31
            &&& mp == 1 ==> doy - start < 30
            &&& mp == 2 ==> doy - start < 31
            &&& mp == 3 ==> doy - start < 30
            &&& mp == 4 ==> doy - start < 31
            &&& mp == 5 ==> doy - start < 31
            &&& mp == 6 ==> doy - start < 30
            &&& mp == 7 ==> doy - start < 31
            &&& mp == 8 ==> doy - start < 30
            &&& mp == 9 ==> doy - start < 31
            &&& mp == 10 ==> doy - start < 31
            &&& (doy >= 306 ==> mp >= 10)
        }),
{
}

proof fn lemma_div_shift(e: int, r: int)
    by (nonlinear_arith)
    requires
        0 <= e,
        0 <= r < 400,
    ensures
        (400 * e + r) / 4 == 100 * e + r / 4,
        (400 * e + r) / 100 == 4 * e + r / 100,
        (400 * e + r) / 400 == e,
{
}

proof fn lemma_mod_shift(e: int, r: int)
    by (nonlinear_arith)
    requires
        0 <= e,
        0 <= r,
    ensures
        (400 * e + r) % 4 == r % 4,
        (400 * e + r) % 100 == r % 100,
        (400 * e + r) % 400 == r % 400,
{
}

proof fn lemma_div_step(y: int, k: int)
    by (nonlinear_arith)
    requires
        y >= 1,
        k >= 1,
    ensures
        y / k - (y - 1) / k == (if y % k == 0 { 1int } else { 0int }),
{
}

proof fn lemma_leap_step(y: int)
    requires
        y >= 1,
    ensures
        leap_years_through(y) == leap_years_through(y - 1) + (if is_leap_year(y) { 1int } else { 0int }),
{
    lemma_div_step(y, 4);
    lemma_div_step(y, 100);
    lemma_div_step(y, 400);
    assert(y % 400 == 0 ==> y % 100 == 0) by (nonlinear_arith)
        requires y >= 1;
    assert(y % 100 == 0 ==> y % 4 == 0) by (nonlinear_arith)
        requires y >= 1;
}

proof fn lemma_month_starts(y: int)
    ensures
        days_before_month(y, 1) == 0,
        days_before_month(y, 2) == 31,
        days_before_month(y, 3) == 59 + (if is_leap_year(y) { 1int } else { 0int }),
        days_before_month(y, 4) == 90 + (if is_leap_year(y) { 1int } else { 0int }),
        days_before_month(y, 5) == 120 + (if is_leap_year(y) { 1int } else { 0int }),
        days_before_month(y, 6) == 151 + (if is_leap_year(y) { 1int } else { 0int }),
        days_before_month(y, 7) == 181 + (if is_leap_year(y) { 1int } else { 0int }),
        days_before_month(y, 8) == 212 + (if is_leap_year(y) { 1int } else { 0int }),
        days_before_month(y, 9) == 243 + (if is_leap_year(y) { 1int } else { 0int }),
        days_before_month(y, 10) == 273 + (if is_leap_year(y) { 1int } else { 0int }),
        days_before_month(y, 11) == 304 + (if is_leap_year(y) { 1int } else { 0int }),
        days_before_month(y, 12) == 334 + (if is_leap_year(y) { 1int } else { 0int }),
{
    reveal_with_fuel(days_before_month, 13);
}

#[verifier::rlimit(40)]
/// Converts a count of days since 1970-01-01 into the calendar date
/// `(year, month, day)` on which that day falls.
pub fn days_to_ymd(days_since_epoch_value: u64) -> (r: (u64, u64, u64))
    requires
        days_since_epoch_value <= u64::MAX - 719468,
    ensures
        r.0 >= 1970,
        is_valid_date(r.0 as int, r.1 as int, r.2 as int),
        days_since_epoch(r.0 as int, r.1 as int, r.2 as int) == days_since_epoch_value,
        (r.0 as int, r.1 as int, r.2 as int) == civil_from_days(days_since_epoch_value as int),
{
    let z: u64 = days_since_epoch_value + 719468;
    let era: u64 = z / 146097;
    let doe: u64 = z - era * 146097;
    proof {
        lemma_year_of_era(doe as u32);
    }
    let yoe: u64 = (doe - doe / 1460 + doe / 36524 - doe / 146096) / 365;
    let y: u64 = yoe + era * 400;
    let doy: u64 = doe - (365 * yoe + yoe / 4 - yoe / 100);
    proof {
        lemma_month_of_year(doy as u32);
    }
    let mp: u64 = (5 * doy + 2) / 153;
    let d: u64 = doy - (153 * mp + 2) / 5 + 1;
    let m: u64 = if mp < 10 { mp + 3 } else { mp - 9 };
    let y: u64 = if m <= 2 { y + 1 } else { y };
    proof {
        let yy: int = 400 * era + yoe;
        lemma_div_shift(era as int, yoe as int);
        lemma_mod_shift(era as int, (yoe + 1) as int);
        lemma_leap_step(yy);
        lemma_leap_step(yy + 1);
        lemma_month_starts(y as int);
    }
    proof {
        lemma_civil_from_days(days_since_epoch_value as int, y as int, m as int, d as int);
    }
    (y, m, d)
}

/// The calendar date on which day `days` (counted from 1970-01-01) falls.
pub open spec fn civil_from_days(days: int) -> (int, int, int) {
    choose|t: (int, int, int)| is_date_of_day(days, t)
}

/// `t` is a date from 1970 on whose day count is `days`.
pub open spec fn is_date_of_day(days: int, t: (int, int, int)) -> bool {
    t.0 >= 1970 && is_valid_date(t.0, t.1, t.2) && days_since_epoch(t.0, t.1, t.2) == days
}

proof fn lemma_month_span(y: int, m: int, d: int)
    requires
        is_valid_date(y, m, d),
    ensures
        0 <= days_before_month(y, m) + d - 1,
        days_before_month(y, m) + d - 1 < 365 + (if is_leap_year(y) { 1int } else { 0int }),
{
    lemma_month_starts(y);
}

proof fn lemma_year_span(y: int, m: int, d: int)
    requires
        y >= 1970,
        is_valid_date(y, m, d),
    ensures
        days_before_year(y) <= days_since_epoch(y, m, d) < days_before_year(y + 1),
{
    lemma_month_span(y, m, d);
    lemma_leap_step(y);
}

proof fn lemma_years_increase(y1: int, y2: int)
    requires
        1970 <= y1 < y2,
    ensures
        days_before_year(y1 + 1) <= days_before_year(y2),
    decreases y2 - y1,
{
    if y1 + 1 < y2 {
        lemma_years_increase(y1, y2 - 1);
        lemma_leap_step(y2 - 1);
    }
}

/// Distinct dates from 1970 on fall on distinct day counts: a day count
/// determines its date.
pub proof fn lemma_days_since_epoch_injective(y1: int, m1: int, d1: int, y2: int, m2: int, d2: int)
    requires
        y1 >= 1970,
        y2 >= 1970,
        is_valid_date(y1, m1, d1),
        is_valid_date(y2, m2, d2),
        days_since_epoch(y1, m1, d1) == days_since_epoch(y2, m2, d2),
    ensures
        y1 == y2,
        m1 == m2,
        d1 == d2,
{
    lemma_year_span(y1, m1, d1);
    lemma_year_span(y2, m2, d2);
    if y1 < y2 {
        lemma_years_increase(y1, y2);
    } else if y2 < y1 {
        lemma_years_increase(y2, y1);
    }
    assert(y1 == y2);
    lemma_month_starts(y1);
}

/// Every day count from 1970-01-01 on falls on exactly one date, and
/// `civil_from_days` names it.
pub proof fn lemma_civil_from_days(days: int, y: int, m: int, d: int)
    requires
        y >= 1970,
        is_valid_date(y, m, d),
        days_since_epoch(y, m, d) == days,
    ensures
        civil_from_days(days) == (y, m, d),
{
    assert(is_date_of_day(days, (y, m, d)));
    let t = civil_from_days(days);
    lemma_days_since_epoch_injective(t.0, t.1, t.2, y, m, d);
}

/// Law: converting a date to its day count and back gives the same date.
pub proof fn law_date_round_trip(y: int, m: int, d: int)
    requires
        y >= 1970,
        is_valid_date(y, m, d),
    ensures
        civil_from_days(days_since_epoch(y, m, d)) == (y, m, d),
{
    lemma_civil_from_days(days_since_epoch(y, m, d), y, m, d);
}

/// Every day count from 1970-01-01 on (as far as the conversion reaches)
/// falls on a date, so `civil_from_days` names a real one.
#[verifier::rlimit(60)]
#[verifier::spinoff_prover]
pub proof fn lemma_day_has_date(n: u64)
    requires
        n <= u64::MAX - 719468,
    ensures
        is_date_of_day(n as int, civil_from_days(n as int)),
{
    let z: u64 = (n + 719468) as u64;
    let era: u64 = z / 146097;
    let doe: u64 = (z - era * 146097) as u64;
    lemma_year_of_era(doe as u32);
    let yoe: u64 = ((doe - doe / 1460 + doe / 36524 - doe / 146096) / 365) as u64;
    let y0: u64 = (yoe + era * 400) as u64;
    let doy: u64 = (doe - (365 * yoe + yoe / 4 - yoe / 100)) as u64;
    lemma_month_of_year(doy as u32);
    let mp: u64 = ((5 * doy + 2) / 153) as u64;
    let d: u64 = (doy - (153 * mp + 2) / 5 + 1) as u64;
    let m: u64 = if mp < 10 { (mp + 3) as u64 } else { (mp - 9) as u64 };
    let y: u64 = if m <= 2 { (y0 + 1) as u64 } else { y0 };
    let yy: int = 400 * era + yoe;
    lemma_div_shift(era as int, yoe as int);
    lemma_mod_shift(era as int, (yoe + 1) as int);
    lemma_leap_step(yy);
    lemma_leap_step(yy + 1);
    lemma_month_starts(y as int);
    lemma_civil_from_days(n as int, y as int, m as int, d as int);
}

/// A day before 10000-01-01 falls in a year below 10000.
pub proof fn lemma_year_below_ten_thousand(n: int, t: (int, int, int))
    requires
        is_date_of_day(n, t),
        n < 2932897,
    ensures
        t.0 <= 9999,
{
    if t.0 >= 10000 {
        lemma_year_span(t.0, t.1, t.2);
        if t.0 > 10000 {
            lemma_years_increase(9999, t.0);
        }
        assert(days_before_year(10000) == 2932897);
    }
}

} // verus!
