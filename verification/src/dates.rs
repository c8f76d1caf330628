//! Calendar dates in the proleptic Gregorian calendar, at day precision,
//! together with the arithmetic the recurrence calculator needs: adding
//! days, months and years. Month and year addition clamp the day of month
//! (January 31 plus one month is the last day of February).

use vstd::prelude::*;

verus! {

/// A calendar date. Supported range: years 0 and later, month 1..=12,
/// day 1..=days of that month (see `date_valid`).
#[derive(Clone, Copy, PartialEq, Eq, Structural, Debug)]
pub struct Date {
    pub year: i32,
    pub month: u8,
    pub day: u8,
}

pub open spec fn is_leap_year(year: int) -> bool {
    (year % 4 == 0 && year % 100 != 0) || year % 400 == 0
}

pub open spec fn spec_days_in_month(year: int, month: int) -> int {
    if month == 2 {
        if is_leap_year(year) { 29 } else { 28 }
    } else if month == 4 || month == 6 || month == 9 || month == 11 {
        30
    } else {
        31
    }
}

pub open spec fn date_valid(d: Date) -> bool {
    &&& 0 <= d.year
    &&& 1 <= d.month <= 12
    &&& 1 <= d.day <= spec_days_in_month(d.year as int, d.month as int)
}

/// `a` is on or before `b` in calendar order.
pub open spec fn date_le(a: Date, b: Date) -> bool {
    ||| a.year < b.year
    ||| (a.year == b.year && a.month < b.month)
    ||| (a.year == b.year && a.month == b.month && a.day <= b.day)
}

/// Calendar order is total: of two dates, one is on or before the other.
pub proof fn lemma_date_le_total(a: Date, b: Date)
    ensures
        date_le(a, b) || date_le(b, a),
{
}

/// Executable form of `date_le`.
pub fn date_on_or_before(a: &Date, b: &Date) -> (r: bool)
    ensures
        r == date_le(*a, *b),
{
    if a.year != b.year {
        a.year < b.year
    } else if a.month != b.month {
        a.month < b.month
    } else {
        a.day <= b.day
    }
}

/// How many days the given month has.
pub fn get_days_from_month(year: i32, month: u32) -> (r: i64)
    requires
        0 <= year,
        1 <= month <= 12,
    ensures
        r == spec_days_in_month(year as int, month as int),
{
    if month == 2 {
        if (year % 4 == 0 && year % 100 != 0) || year % 400 == 0 {
            29
        } else {
            28
        }
    } else if month == 4 || month == 6 || month == 9 || month == 11 {
        30
    } else {
        31
    }
}

/// The day after `d`.
pub open spec fn spec_next_day(d: Date) -> Date {
    if d.day < spec_days_in_month(d.year as int, d.month as int) {
        Date { year: d.year, month: d.month, day: (d.day + 1) as u8 }
    } else if d.month < 12 {
        Date { year: d.year, month: (d.month + 1) as u8, day: 1 }
    } else {
        Date { year: (d.year + 1) as i32, month: 1, day: 1 }
    }
}

/// `d` moved `n` days forward, one day at a time.
pub open spec fn spec_add_days(d: Date, n: nat) -> Date
    decreases n,
{
    if n == 0 {
        d
    } else {
        spec_add_days(spec_next_day(d), (n - 1) as nat)
    }
}

pub proof fn lemma_next_day_valid(d: Date)
    requires
        date_valid(d),
        d.year < i32::MAX,
    ensures
        date_valid(spec_next_day(d)),
        spec_next_day(d).year <= d.year + 1,
        date_le(d, spec_next_day(d)),
{
}

pub proof fn lemma_add_days_valid(d: Date, n: nat)
    requires
        date_valid(d),
        d.year + n <= i32::MAX,
    ensures
        date_valid(spec_add_days(d, n)),
        spec_add_days(d, n).year <= d.year + n,
    decreases n,
{
    if n > 0 {
        lemma_next_day_valid(d);
        lemma_add_days_valid(spec_next_day(d), (n - 1) as nat);
    }
}

pub proof fn lemma_date_le_trans(a: Date, b: Date, c: Date)
    requires
        date_le(a, b),
        date_le(b, c),
    ensures
        date_le(a, c),
{
}

pub proof fn lemma_add_days_le(d: Date, n: nat)
    requires
        date_valid(d),
        d.year + n <= i32::MAX,
    ensures
        date_le(d, spec_add_days(d, n)),
    decreases n,
{
    if n > 0 {
        lemma_next_day_valid(d);
        lemma_add_days_le(spec_next_day(d), (n - 1) as nat);
        lemma_date_le_trans(d, spec_next_day(d), spec_add_days(d, n));
    }
}

pub proof fn lemma_add_days_concat(d: Date, a: nat, b: nat)
    ensures
        spec_add_days(d, a + b) == spec_add_days(spec_add_days(d, a), b),
    decreases a,
{
    if a > 0 {
        lemma_add_days_concat(spec_next_day(d), (a - 1) as nat, b);
    }
}

/// Moving further forward by days never gives an earlier date.
pub proof fn lemma_add_days_mono(d: Date, a: nat, b: nat)
    requires
        date_valid(d),
        a <= b,
        d.year + b <= i32::MAX,
    ensures
        date_le(spec_add_days(d, a), spec_add_days(d, b)),
{
    lemma_add_days_concat(d, a, (b - a) as nat);
    lemma_add_days_valid(d, a);
    lemma_add_days_le(spec_add_days(d, a), (b - a) as nat);
}

/// One day forward; the executable form of `spec_next_day`.
pub fn next_day(d: &Date) -> (r: Date)
    requires
        date_valid(*d),
        d.year < i32::MAX,
    ensures
        r == spec_next_day(*d),
        date_valid(r),
        r.year <= d.year + 1,
{
    proof {
        lemma_next_day_valid(*d);
    }
    let dim = get_days_from_month(d.year, d.month as u32);
    if (d.day as i64) < dim {
        Date { year: d.year, month: d.month, day: d.day + 1 }
    } else if d.month < 12 {
        Date { year: d.year, month: d.month + 1, day: 1 }
    } else {
        Date { year: d.year + 1, month: 1, day: 1 }
    }
}

/// `d` moved `n` days forward.
pub fn add_days(d: &Date, n: u64) -> (r: Date)
    requires
        date_valid(*d),
        d.year + n <= i32::MAX,
    ensures
        r == spec_add_days(*d, n as nat),
        date_valid(r),
        r.year <= d.year + n,
{
    let mut cur: Date = *d;
    let mut i: u64 = 0;
    while i < n
        invariant
            i <= n,
            date_valid(cur),
            cur == spec_add_days(*d, i as nat),
            cur.year <= d.year + i,
            d.year + n <= i32::MAX,
        decreases n - i,
    {
        proof {
            lemma_add_days_concat(*d, i as nat, 1);
            assert(spec_add_days(cur, 1) == spec_add_days(spec_next_day(cur), 0));
            assert(spec_add_days(spec_next_day(cur), 0) == spec_next_day(cur));
        }
        cur = next_day(&cur);
        i = i + 1;
    }
    cur
}

/// `d` moved `n` calendar months forward, clamping the day of month to the
/// length of the target month.
pub open spec fn spec_add_months(d: Date, n: int) -> Date {
    let idx = d.year * 12 + d.month - 1 + n;
    let y = idx / 12;
    let m = idx % 12 + 1;
    let dim = spec_days_in_month(y, m);
    Date {
        year: y as i32,
        month: m as u8,
        day: if d.day <= dim { d.day } else { dim as u8 },
    }
}

pub open spec fn month_index(d: Date) -> int {
    d.year * 12 + d.month - 1
}

pub proof fn lemma_add_months_valid(d: Date, n: int)
    requires
        date_valid(d),
        0 <= n,
        month_index(d) + n <= i32::MAX,
    ensures
        date_valid(spec_add_months(d, n)),
        month_index(spec_add_months(d, n)) == month_index(d) + n,
{
    let idx = d.year * 12 + d.month - 1 + n;
    vstd::arithmetic::div_mod::lemma_fundamental_div_mod(idx, 12);
    vstd::arithmetic::div_mod::lemma_div_is_ordered(0, idx, 12);
    vstd::arithmetic::div_mod::lemma_div_is_ordered(idx, i32::MAX as int, 12);
    assert(i32::MAX as int / 12 == 178956970);
}

/// Moving further forward by months never gives an earlier date.
pub proof fn lemma_add_months_mono(d: Date, a: int, b: int)
    requires
        date_valid(d),
        0 <= a <= b,
        month_index(d) + b <= i32::MAX,
    ensures
        date_le(spec_add_months(d, a), spec_add_months(d, b)),
{
    lemma_add_months_valid(d, a);
    lemma_add_months_valid(d, b);
    let ia = d.year * 12 + d.month - 1 + a;
    let ib = d.year * 12 + d.month - 1 + b;
    vstd::arithmetic::div_mod::lemma_fundamental_div_mod(ia, 12);
    vstd::arithmetic::div_mod::lemma_fundamental_div_mod(ib, 12);
    vstd::arithmetic::div_mod::lemma_div_is_ordered(ia, ib, 12);
}

/// `d` moved `n` months forward; the executable form of `spec_add_months`.
pub fn add_months(d: &Date, n: u64) -> (r: Date)
    requires
        date_valid(*d),
        month_index(*d) + n <= i32::MAX,
    ensures
        r == spec_add_months(*d, n as int),
        date_valid(r),
{
    proof {
        lemma_add_months_valid(*d, n as int);
    }
    let idx: i64 = (d.year as i64) * 12 + (d.month as i64) - 1 + (n as i64);
    let y: i64 = idx / 12;
    let m: i64 = idx % 12 + 1;
    let dim: i64 = get_days_from_month(y as i32, m as u32);
    let day: u8 = if (d.day as i64) <= dim {
        d.day
    } else {
        dim as u8
    };
    Date { year: y as i32, month: m as u8, day }
}

/// `d` moved `days` days forward.
pub fn add_days_to_naive_date_time(days: i32, naive: &Date) -> (r: Date)
    requires
        date_valid(*naive),
        0 <= days,
        naive.year + days <= i32::MAX,
    ensures
        r == spec_add_days(*naive, days as nat),
        date_valid(r),
{
    add_days(naive, days as u64)
}

/// `naive` moved one calendar month forward.
pub fn add_one_month_to_naive_date_time(naive: &Date) -> (r: Date)
    requires
        date_valid(*naive),
        month_index(*naive) + 1 <= i32::MAX,
    ensures
        r == spec_add_months(*naive, 1),
        date_valid(r),
{
    add_months(naive, 1)
}

/// `naive` moved `months` calendar months forward, in one step: the day of
/// month clamps once, against the final month.
pub fn add_months_to_naive_date_time(months: i32, naive: &Date) -> (r: Date)
    requires
        date_valid(*naive),
        0 <= months,
        month_index(*naive) + months <= i32::MAX,
    ensures
        r == spec_add_months(*naive, months as int),
        date_valid(r),
{
    add_months(naive, months as u64)
}

/// `naive` moved `years` calendar years forward (February 29 clamps to
/// February 28 in a non-leap target year).
pub fn add_years_to_naive_date_time(years: i32, naive: &Date) -> (r: Date)
    requires
        date_valid(*naive),
        0 <= years,
        month_index(*naive) + 12 * years <= i32::MAX,
    ensures
        r == spec_add_months(*naive, 12 * years),
        date_valid(r),
{
    add_months(naive, (years as u64) * 12)
}

} // verus!
