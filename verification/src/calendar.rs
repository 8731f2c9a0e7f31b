//! Proleptic Gregorian calendar arithmetic for UTC day counts since 1970-01-01.
use vstd::prelude::*;

verus! {

pub open spec fn is_leap_year(y: int) -> bool {
    (y % 4 == 0 && y % 100 != 0) || y % 400 == 0
}

pub open spec fn year_length(y: int) -> int {
    if is_leap_year(y) { 366 } else { 365 }
}

pub open spec fn month_length(y: int, m: int) -> int {
    if m == 2 {
        if is_leap_year(y) { 29 } else { 28 }
    } else if m == 4 || m == 6 || m == 9 || m == 11 {
        30
    } else {
        31
    }
}

/// Days from 1970-01-01 to January 1st of year `y` (`y >= 1970`).
pub open spec fn days_before_year(y: int) -> int
    decreases y - 1970,
{
    if y <= 1970 {
        0
    } else {
        days_before_year(y - 1) + year_length(y - 1)
    }
}

/// Days from January 1st of year `y` to the first day of month `m` (`1 <= m <= 13`).
pub open spec fn days_before_month(y: int, m: int) -> int
    decreases m,
{
    if m <= 1 {
        0
    } else {
        days_before_month(y, m - 1) + month_length(y, m - 1)
    }
}

/// A calendar date on or after 1970-01-01.
pub open spec fn is_valid_date(y: int, m: int, d: int) -> bool {
    y >= 1970 && 1 <= m <= 12 && 1 <= d <= month_length(y, m)
}

/// Days from 1970-01-01 to the date `y-m-d`.
pub open spec fn days_since_epoch(y: int, m: int, d: int) -> int {
    days_before_year(y) + days_before_month(y, m) + d - 1
}

spec fn leaps_before(y: int) -> int {
    (y - 1) / 4 - (y - 1) / 100 + (y - 1) / 400
}

proof fn lemma_div4_step(x: int)
    requires
        x >= 0,
    ensures
        (x + 1) / 4 == x / 4 + if (x + 1) % 4 == 0 { 1int } else { 0int },
{
}

proof fn lemma_div100_step(x: int)
    requires
        x >= 0,
    ensures
        (x + 1) / 100 == x / 100 + if (x + 1) % 100 == 0 { 1int } else { 0int },
{
}

proof fn lemma_div400_step(x: int)
    requires
        x >= 0,
    ensures
        (x + 1) / 400 == x / 400 + if (x + 1) % 400 == 0 { 1int } else { 0int },
{
}

proof fn lemma_leaps_step(y: int)
    requires
        y >= 1,
    ensures
        leaps_before(y + 1) == leaps_before(y) + if is_leap_year(y) { 1int } else { 0int },
{
    lemma_div4_step(y - 1);
    lemma_div100_step(y - 1);
    lemma_div400_step(y - 1);
}

proof fn lemma_days_before_year_closed(y: int)
    requires
        y >= 1970,
    ensures
        days_before_year(y) == 365 * (y - 1970) + leaps_before(y) - leaps_before(1970),
    decreases y - 1970,
{
    if y > 1970 {
        lemma_days_before_year_closed(y - 1);
        lemma_leaps_step(y - 1);
    }
}

proof fn lemma_four_centuries(y: int)
    requires
        y >= 1970,
    ensures
        days_before_year(y + 400) == days_before_year(y) + 146097,
{
    lemma_days_before_year_closed(y);
    lemma_days_before_year_closed(y + 400);
    assert((y + 399) / 4 == (y - 1) / 4 + 100);
    assert((y + 399) / 100 == (y - 1) / 100 + 4);
    assert((y + 399) / 400 == (y - 1) / 400 + 1);
}

proof fn lemma_cycles(k: int)
    requires
        k >= 0,
    ensures
        days_before_year(1970 + 400 * k) == 146097 * k,
    decreases k,
{
    if k > 0 {
        lemma_cycles(k - 1);
        lemma_four_centuries(1970 + 400 * (k - 1));
    }
}

proof fn lemma_year_span(base: int, y: int)
    requires
        1970 <= base <= y,
    ensures
        days_before_year(y) - days_before_year(base) >= 365 * (y - base),
{
    lemma_days_before_year_closed(base);
    lemma_days_before_year_closed(y);
    assert((y - 1) / 4 - (y - 1) / 100 + (y - 1) / 400 >= (base - 1) / 4 - (base - 1) / 100 + (
    base - 1) / 400) by (nonlinear_arith)
        requires
            base <= y,
            base >= 1970,
    {
        assert((y - 1) / 4 >= (base - 1) / 4);
    }
}

proof fn lemma_months_fill_year(y: int)
    ensures
        days_before_month(y, 13) == year_length(y),
{
    reveal_with_fuel(days_before_month, 13);
}

fn leap(y: u64) -> (b: bool)
    ensures
        b == is_leap_year(y as int),
{
    (y % 4 == 0 && y % 100 != 0) || y % 400 == 0
}

fn year_len(y: u64) -> (n: u64)
    ensures
        n == year_length(y as int),
{
    if leap(y) { 366 } else { 365 }
}

fn month_len(y: u64, m: u64) -> (n: u64)
    ensures
        n == month_length(y as int, m as int),
{
    if m == 2 {
        if leap(y) { 29 } else { 28 }
    } else if m == 4 || m == 6 || m == 9 || m == 11 {
        30
    } else {
        31
    }
}

/// The calendar date `days` days after 1970-01-01.
pub fn civil_from_days(days: u64) -> (r: (u64, u64, u64))
    requires
        days <= 1_000_000_000_000,
    ensures
        is_valid_date(r.0 as int, r.1 as int, r.2 as int),
        days_since_epoch(r.0 as int, r.1 as int, r.2 as int) == days,
{
    let cycles: u64 = days / 146097;
    let rem0: u64 = days % 146097;
    let base: u64 = 1970 + 400 * cycles;
    proof {
        lemma_cycles(cycles as int);
    }
    let mut year: u64 = base;
    let mut rem: u64 = rem0;
    while rem >= year_len(year)
        invariant
            base == 1970 + 400 * cycles,
            cycles <= 10_000_000,
            rem0 < 146097,
            base <= year,
            days_before_year(year as int) + rem == days,
            days_before_year(year as int) - days_before_year(base as int) + rem == rem0,
        decreases rem,
    {
        proof {
            lemma_year_span(base as int, year as int);
        }
        rem = rem - year_len(year);
        year = year + 1;
        proof {
            lemma_year_span(base as int, year as int);
        }
    }
    proof {
        lemma_months_fill_year(year as int);
    }
    let mut month: u64 = 1;
    while rem >= month_len(year, month)
        invariant
            1 <= month <= 12,
            rem + days_before_month(year as int, month as int) < year_length(year as int),
            days_before_month(year as int, 13) == year_length(year as int),
            days_before_month(year as int, month as int) + rem + days_before_year(year as int)
                == days,
        decreases 12 - month,
    {
        rem = rem - month_len(year, month);
        if month == 12 {
            assert(false);
        }
        month = month + 1;
    }
    (year, month, rem + 1)
}

proof fn lemma_months_monotone(y: int, m1: int, m2: int)
    requires
        m1 <= m2,
    ensures
        days_before_month(y, m1) <= days_before_month(y, m2),
        m1 < m2 && m1 >= 1 ==> days_before_month(y, m1 + 1) <= days_before_month(y, m2),
    decreases m2 - m1,
{
    if m1 < m2 {
        lemma_months_monotone(y, m1, m2 - 1);
        if m2 > 1 {
            assert(days_before_month(y, m2) == days_before_month(y, m2 - 1) + month_length(y, m2 - 1));
        }
    }
}

proof fn lemma_years_monotone(y1: int, y2: int)
    requires
        1970 <= y1 <= y2,
    ensures
        days_before_year(y1) <= days_before_year(y2),
        y1 < y2 ==> days_before_year(y1 + 1) <= days_before_year(y2),
    decreases y2 - y1,
{
    if y1 < y2 {
        lemma_years_monotone(y1, y2 - 1);
    }
}

/// The offset of a valid date within its year lies inside the year, and
/// within its month inside the month.
proof fn lemma_date_in_year(y: int, m: int, d: int)
    requires
        is_valid_date(y, m, d),
    ensures
        days_before_month(y, m) <= days_before_month(y, m) + d - 1 < days_before_month(y, m + 1),
        days_before_month(y, m) + d - 1 < year_length(y),
{
    lemma_months_fill_year(y);
    lemma_months_monotone(y, m + 1, 13);
}

/// A day count names one date: two valid dates with the same count since
/// 1970-01-01 are the same date.
pub proof fn lemma_date_unique(y1: int, m1: int, d1: int, y2: int, m2: int, d2: int)
    requires
        is_valid_date(y1, m1, d1),
        is_valid_date(y2, m2, d2),
        days_since_epoch(y1, m1, d1) == days_since_epoch(y2, m2, d2),
    ensures
        y1 == y2 && m1 == m2 && d1 == d2,
{
    lemma_date_in_year(y1, m1, d1);
    lemma_date_in_year(y2, m2, d2);
    lemma_months_monotone(y1, 1, m1);
    lemma_months_monotone(y2, 1, m2);
    assert(days_before_year(y1 + 1) == days_before_year(y1) + year_length(y1));
    assert(days_before_year(y2 + 1) == days_before_year(y2) + year_length(y2));
    if y1 < y2 {
        lemma_years_monotone(y1, y2);
    } else if y2 < y1 {
        lemma_years_monotone(y2, y1);
    }
    assert(y1 == y2);
    if m1 < m2 {
        lemma_months_monotone(y1, m1, m2);
    } else if m2 < m1 {
        lemma_months_monotone(y1, m2, m1);
    }
}

} // verus!
