//! The date recurrence calculator: the date of the `k`-th occurrence of a
//! schedule, computed from its immutable anchor date — never from the
//! previous occurrence, so repeated pays cannot drift.

use vstd::prelude::*;
use crate::dates::{Date, date_le, date_valid, month_index, spec_add_days, spec_add_months};
use crate::dates::{add_days, add_months};
use crate::dates::{lemma_add_days_mono, lemma_add_months_mono};
use crate::models::RepeatFrequencies;

verus! {

/// The date of occurrence number `current_repeat_count` (0 is the anchor
/// itself) of a schedule anchored at `initial_date` that repeats every
/// `repeat_interval` units of `repeat_freq`. A non-repeating schedule is
/// due at its anchor.
pub open spec fn spec_next_date(
    initial_date: Date,
    repeat: bool,
    repeat_freq: RepeatFrequencies,
    repeat_interval: int,
    current_repeat_count: int,
) -> Date {
    if repeat {
        match repeat_freq {
            RepeatFrequencies::Days => spec_add_days(
                initial_date,
                (repeat_interval * current_repeat_count) as nat,
            ),
            RepeatFrequencies::Weeks => spec_add_days(
                initial_date,
                (7 * repeat_interval * current_repeat_count) as nat,
            ),
            RepeatFrequencies::Months => spec_add_months(
                initial_date,
                repeat_interval * current_repeat_count,
            ),
            RepeatFrequencies::Years => spec_add_months(
                initial_date,
                12 * repeat_interval * current_repeat_count,
            ),
        }
    } else {
        initial_date
    }
}

/// The occurrence stays inside the representable year range; the machine
/// bound under which the calculator is defined.
pub open spec fn next_date_in_range(
    initial_date: Date,
    repeat: bool,
    repeat_freq: RepeatFrequencies,
    repeat_interval: int,
    current_repeat_count: int,
) -> bool {
    repeat ==> match repeat_freq {
        RepeatFrequencies::Days =>
            initial_date.year + repeat_interval * current_repeat_count <= i32::MAX,
        RepeatFrequencies::Weeks =>
            initial_date.year + 7 * repeat_interval * current_repeat_count <= i32::MAX,
        RepeatFrequencies::Months =>
            month_index(initial_date) + repeat_interval * current_repeat_count <= i32::MAX,
        RepeatFrequencies::Years =>
            month_index(initial_date) + 12 * repeat_interval * current_repeat_count <= i32::MAX,
    }
}

/// Executable check of `next_date_in_range`: whether the occurrence can
/// be computed without leaving the representable year range.
pub fn check_next_date_in_range(
    initial_date: &Date,
    repeat_freq: RepeatFrequencies,
    repeat_interval: i32,
    current_repeat_count: i32,
) -> (r: bool)
    ensures
        r == next_date_in_range(
            *initial_date,
            true,
            repeat_freq,
            repeat_interval as int,
            current_repeat_count as int,
        ),
{
    proof {
        let i = repeat_interval as int;
        let c = current_repeat_count as int;
        assert(-0x4000000000000000 <= i * c <= 0x4000000000000000) by (nonlinear_arith)
            requires
                -0x80000000 <= i <= 0x80000000,
                -0x80000000 <= c <= 0x80000000,
        ;
        assert(7 * i * c == 7 * (i * c)) by (nonlinear_arith);
        assert(12 * i * c == 12 * (i * c)) by (nonlinear_arith);
    }
    let steps: i128 = (repeat_interval as i128) * (current_repeat_count as i128);
    let max: i128 = i32::MAX as i128;
    match repeat_freq {
        RepeatFrequencies::Days => (initial_date.year as i128) + steps <= max,
        RepeatFrequencies::Weeks => (initial_date.year as i128) + 7 * steps <= max,
        RepeatFrequencies::Months => {
            (initial_date.year as i128) * 12 + (initial_date.month as i128) - 1 + steps <= max
        },
        RepeatFrequencies::Years => {
            (initial_date.year as i128) * 12 + (initial_date.month as i128) - 1 + 12 * steps <= max
        },
    }
}

/// The next occurrence date of a schedule. For `repeat_freq` of days the
/// result is the anchor moved forward by exactly
/// `repeat_interval * current_repeat_count` days; weeks count as seven
/// days; months and years add calendar months, clamping the day of month.
pub fn calculate_next_date(
    initial_date: Date,
    repeat: bool,
    repeat_freq: RepeatFrequencies,
    repeat_interval: i32,
    current_repeat_count: i32,
) -> (r: Date)
    requires
        date_valid(initial_date),
        repeat ==> 1 <= repeat_interval && 0 <= current_repeat_count,
        next_date_in_range(
            initial_date,
            repeat,
            repeat_freq,
            repeat_interval as int,
            current_repeat_count as int,
        ),
    ensures
        r == spec_next_date(
            initial_date,
            repeat,
            repeat_freq,
            repeat_interval as int,
            current_repeat_count as int,
        ),
        date_valid(r),
{
    if repeat {
        proof {
            assert(0 <= (repeat_interval as int) * (current_repeat_count as int)
                < 0x4000000000000000) by (nonlinear_arith)
                requires
                    1 <= repeat_interval < 0x80000000,
                    0 <= current_repeat_count < 0x80000000,
            ;
        }
        let total: u64 = (repeat_interval as u64) * (current_repeat_count as u64);
        proof {
            let i = repeat_interval as int;
            let c = current_repeat_count as int;
            assert(7 * i * c == 7 * (i * c)) by (nonlinear_arith);
            assert(12 * i * c == 12 * (i * c)) by (nonlinear_arith);
        }
        match repeat_freq {
            RepeatFrequencies::Days => add_days(&initial_date, total),
            RepeatFrequencies::Weeks => add_days(&initial_date, 7 * total),
            RepeatFrequencies::Months => add_months(&initial_date, total),
            RepeatFrequencies::Years => add_months(&initial_date, 12 * total),
        }
    } else {
        initial_date
    }
}

/// The next occurrence never moves backwards as the occurrence index
/// grows: for every frequency and interval, a later occurrence is on or
/// after an earlier one.
pub proof fn lemma_next_date_monotonic(
    initial_date: Date,
    repeat_freq: RepeatFrequencies,
    repeat_interval: int,
    k1: int,
    k2: int,
)
    requires
        date_valid(initial_date),
        1 <= repeat_interval,
        0 <= k1 <= k2,
        next_date_in_range(initial_date, true, repeat_freq, repeat_interval, k2),
    ensures
        date_le(
            spec_next_date(initial_date, true, repeat_freq, repeat_interval, k1),
            spec_next_date(initial_date, true, repeat_freq, repeat_interval, k2),
        ),
{
    let a = repeat_interval * k1;
    let b = repeat_interval * k2;
    assert(0 <= a && a <= b) by (nonlinear_arith)
        requires
            1 <= repeat_interval,
            0 <= k1 <= k2,
            a == repeat_interval * k1,
            b == repeat_interval * k2,
    ;
    match repeat_freq {
        RepeatFrequencies::Days => {
            lemma_add_days_mono(initial_date, a as nat, b as nat);
        }
        RepeatFrequencies::Weeks => {
            assert(7 * repeat_interval * k1 == 7 * a) by (nonlinear_arith)
                requires
                    a == repeat_interval * k1,
            ;
            assert(7 * repeat_interval * k2 == 7 * b) by (nonlinear_arith)
                requires
                    b == repeat_interval * k2,
            ;
            lemma_add_days_mono(initial_date, (7 * a) as nat, (7 * b) as nat);
        }
        RepeatFrequencies::Months => {
            lemma_add_months_mono(initial_date, a, b);
        }
        RepeatFrequencies::Years => {
            assert(12 * repeat_interval * k1 == 12 * a) by (nonlinear_arith)
                requires
                    a == repeat_interval * k1,
            ;
            assert(12 * repeat_interval * k2 == 12 * b) by (nonlinear_arith)
                requires
                    b == repeat_interval * k2,
            ;
            lemma_add_months_mono(initial_date, 12 * a, 12 * b);
        }
    }
}

/// A range bound that admits a later occurrence admits every earlier
/// one.
pub proof fn lemma_next_date_in_range_mono(
    initial_date: Date,
    repeat_freq: RepeatFrequencies,
    repeat_interval: int,
    a: int,
    b: int,
)
    requires
        0 <= repeat_interval,
        0 <= a <= b,
        next_date_in_range(initial_date, true, repeat_freq, repeat_interval, b),
    ensures
        next_date_in_range(initial_date, true, repeat_freq, repeat_interval, a),
{
    assert(repeat_interval * a <= repeat_interval * b) by (nonlinear_arith)
        requires
            0 <= repeat_interval,
            a <= b,
    ;
    assert(7 * repeat_interval * a <= 7 * repeat_interval * b) by (nonlinear_arith)
        requires
            0 <= repeat_interval,
            a <= b,
    ;
    assert(12 * repeat_interval * a <= 12 * repeat_interval * b) by (nonlinear_arith)
        requires
            0 <= repeat_interval,
            a <= b,
    ;
}

/// An occurrence inside the range bound is a well-formed date.
pub proof fn lemma_next_date_valid(
    initial_date: Date,
    repeat_freq: RepeatFrequencies,
    repeat_interval: int,
    current_repeat_count: int,
)
    requires
        date_valid(initial_date),
        1 <= repeat_interval,
        0 <= current_repeat_count,
        next_date_in_range(
            initial_date,
            true,
            repeat_freq,
            repeat_interval,
            current_repeat_count,
        ),
    ensures
        date_valid(
            spec_next_date(
                initial_date,
                true,
                repeat_freq,
                repeat_interval,
                current_repeat_count,
            ),
        ),
{
    let i = repeat_interval;
    let c = current_repeat_count;
    assert(0 <= i * c) by (nonlinear_arith)
        requires
            0 <= i,
            0 <= c,
    ;
    assert(7 * i * c == 7 * (i * c)) by (nonlinear_arith);
    assert(12 * i * c == 12 * (i * c)) by (nonlinear_arith);
    match repeat_freq {
        RepeatFrequencies::Days => {
            crate::dates::lemma_add_days_valid(initial_date, (i * c) as nat);
        }
        RepeatFrequencies::Weeks => {
            crate::dates::lemma_add_days_valid(initial_date, (7 * (i * c)) as nat);
        }
        RepeatFrequencies::Months => {
            crate::dates::lemma_add_months_valid(initial_date, i * c);
        }
        RepeatFrequencies::Years => {
            crate::dates::lemma_add_months_valid(initial_date, 12 * (i * c));
        }
    }
}

/// A weekly schedule is exactly a daily schedule whose interval is seven
/// times as long: occurrence `k` of "every `n` weeks" equals occurrence
/// `k` of "every `7 n` days".
pub proof fn lemma_weeks_are_seven_days(
    initial_date: Date,
    repeat_interval: int,
    k: int,
)
    ensures
        spec_next_date(initial_date, true, RepeatFrequencies::Weeks, repeat_interval, k)
            == spec_next_date(initial_date, true, RepeatFrequencies::Days, 7 * repeat_interval, k),
{
}

} // verus!
