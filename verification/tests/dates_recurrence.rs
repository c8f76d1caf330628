use finance_ledger::dates::{
    add_days_to_naive_date_time, add_months_to_naive_date_time, add_one_month_to_naive_date_time,
    add_years_to_naive_date_time, date_on_or_before, get_days_from_month, Date,
};
use finance_ledger::models::RepeatFrequencies;
use finance_ledger::recurrence::calculate_next_date;

fn d(year: i32, month: u8, day: u8) -> Date {
    Date { year, month, day }
}

#[test]
fn days_in_each_month() {
    assert_eq!(get_days_from_month(2023, 1), 31);
    assert_eq!(get_days_from_month(2023, 2), 28);
    assert_eq!(get_days_from_month(2024, 2), 29);
    assert_eq!(get_days_from_month(1900, 2), 28);
    assert_eq!(get_days_from_month(2000, 2), 29);
    assert_eq!(get_days_from_month(2023, 4), 30);
    assert_eq!(get_days_from_month(2023, 6), 30);
    assert_eq!(get_days_from_month(2023, 9), 30);
    assert_eq!(get_days_from_month(2023, 11), 30);
    assert_eq!(get_days_from_month(2023, 12), 31);
}

#[test]
fn adding_days_rolls_over_months_and_years() {
    assert_eq!(add_days_to_naive_date_time(31, &d(2023, 1, 1)), d(2023, 2, 1));
    assert_eq!(add_days_to_naive_date_time(4, &d(2024, 12, 30)), d(2025, 1, 3));
    assert_eq!(add_days_to_naive_date_time(1, &d(2024, 2, 28)), d(2024, 2, 29));
    assert_eq!(add_days_to_naive_date_time(1, &d(2023, 2, 28)), d(2023, 3, 1));
    assert_eq!(add_days_to_naive_date_time(0, &d(2023, 7, 15)), d(2023, 7, 15));
    assert_eq!(add_days_to_naive_date_time(365, &d(2023, 3, 1)), d(2024, 2, 29));
}

#[test]
fn adding_one_month_clamps_the_day() {
    assert_eq!(add_one_month_to_naive_date_time(&d(2024, 1, 31)), d(2024, 2, 29));
    assert_eq!(add_one_month_to_naive_date_time(&d(2023, 1, 31)), d(2023, 2, 28));
    assert_eq!(add_one_month_to_naive_date_time(&d(2023, 3, 15)), d(2023, 4, 15));
    assert_eq!(add_one_month_to_naive_date_time(&d(2023, 12, 31)), d(2024, 1, 31));
}

#[test]
fn adding_months_clamps_once_against_the_final_month() {
    // two months from January 31 is March 31, not March 28
    assert_eq!(add_months_to_naive_date_time(2, &d(2024, 1, 31)), d(2024, 3, 31));
    assert_eq!(add_months_to_naive_date_time(13, &d(2023, 1, 31)), d(2024, 2, 29));
    assert_eq!(add_months_to_naive_date_time(0, &d(2023, 5, 20)), d(2023, 5, 20));
}

#[test]
fn adding_years_clamps_leap_day() {
    assert_eq!(add_years_to_naive_date_time(1, &d(2024, 2, 29)), d(2025, 2, 28));
    assert_eq!(add_years_to_naive_date_time(4, &d(2024, 2, 29)), d(2028, 2, 29));
    assert_eq!(add_years_to_naive_date_time(3, &d(2021, 7, 4)), d(2024, 7, 4));
}

#[test]
fn next_date_without_repeat_is_the_anchor() {
    let anchor = d(2022, 11, 5);
    let r = calculate_next_date(anchor, false, RepeatFrequencies::Days, 1, 9);
    assert_eq!(r, anchor);
}

#[test]
fn next_date_days_is_exact_day_arithmetic() {
    // interval 3 days, fourth occurrence: 12 days out
    let r = calculate_next_date(d(2024, 1, 31), true, RepeatFrequencies::Days, 3, 4);
    assert_eq!(r, d(2024, 2, 12));
    let r0 = calculate_next_date(d(2024, 1, 31), true, RepeatFrequencies::Days, 3, 0);
    assert_eq!(r0, d(2024, 1, 31));
}

#[test]
fn next_date_weeks_equals_seven_times_days() {
    let anchor = d(2023, 6, 10);
    for k in 0..6 {
        let weeks = calculate_next_date(anchor, true, RepeatFrequencies::Weeks, 2, k);
        let days = calculate_next_date(anchor, true, RepeatFrequencies::Days, 14, k);
        assert_eq!(weeks, days);
    }
    assert_eq!(
        calculate_next_date(anchor, true, RepeatFrequencies::Weeks, 1, 3),
        d(2023, 7, 1)
    );
}

#[test]
fn next_date_months_from_month_end_anchor() {
    let anchor = d(2024, 1, 31);
    assert_eq!(
        calculate_next_date(anchor, true, RepeatFrequencies::Months, 1, 1),
        d(2024, 2, 29)
    );
    assert_eq!(
        calculate_next_date(anchor, true, RepeatFrequencies::Months, 1, 2),
        d(2024, 3, 31)
    );
    assert_eq!(
        calculate_next_date(anchor, true, RepeatFrequencies::Months, 1, 12),
        d(2025, 1, 31)
    );
}

#[test]
fn next_date_years_is_calendar_aware() {
    assert_eq!(
        calculate_next_date(d(2024, 2, 29), true, RepeatFrequencies::Years, 1, 1),
        d(2025, 2, 28)
    );
    assert_eq!(
        calculate_next_date(d(2024, 2, 29), true, RepeatFrequencies::Years, 2, 2),
        d(2028, 2, 29)
    );
}

#[test]
fn next_date_is_monotone_in_the_occurrence_index() {
    let anchor = d(2024, 1, 31);
    for freq in [
        RepeatFrequencies::Days,
        RepeatFrequencies::Weeks,
        RepeatFrequencies::Months,
        RepeatFrequencies::Years,
    ] {
        let mut prev = calculate_next_date(anchor, true, freq, 2, 0);
        for k in 1..30 {
            let cur = calculate_next_date(anchor, true, freq, 2, k);
            assert!(date_on_or_before(&prev, &cur));
            prev = cur;
        }
    }
}
