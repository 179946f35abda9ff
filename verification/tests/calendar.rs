use azubitafel::calendar::{CivilDateTime, MAX_YEAR, MIN_YEAR};
use chrono::{NaiveDate, NaiveTime};

#[test]
fn days_on_the_calendar_are_made() {
    assert_eq!(
        CivilDateTime::new(2024, 2, 29, 23, 59),
        Some(CivilDateTime { year: 2024, month: 2, day: 29, hour: 23, minute: 59 })
    );
    assert_eq!(
        CivilDateTime::new(2025, 12, 31, 0, 0),
        Some(CivilDateTime { year: 2025, month: 12, day: 31, hour: 0, minute: 0 })
    );
    assert!(CivilDateTime::new(2000, 2, 29, 12, 0).is_some());
    assert!(CivilDateTime::new(-4, 2, 29, 12, 0).is_some());
    assert!(CivilDateTime::new(MIN_YEAR, 1, 1, 0, 0).is_some());
    assert!(CivilDateTime::new(MAX_YEAR, 12, 31, 23, 59).is_some());
}

#[test]
fn days_off_the_calendar_are_refused() {
    assert_eq!(CivilDateTime::new(2023, 2, 29, 12, 0), None);
    assert_eq!(CivilDateTime::new(1900, 2, 29, 12, 0), None);
    assert_eq!(CivilDateTime::new(2023, 4, 31, 12, 0), None);
    assert_eq!(CivilDateTime::new(2023, 0, 10, 12, 0), None);
    assert_eq!(CivilDateTime::new(2023, 13, 10, 12, 0), None);
    assert_eq!(CivilDateTime::new(2023, 6, 0, 12, 0), None);
    assert_eq!(CivilDateTime::new(2023, 1, 32, 12, 0), None);
    assert_eq!(CivilDateTime::new(MIN_YEAR - 1, 1, 1, 0, 0), None);
    assert_eq!(CivilDateTime::new(MAX_YEAR + 1, 1, 1, 0, 0), None);
    assert_eq!(CivilDateTime::new(2023, u32::MAX, 1, 0, 0), None);
    assert_eq!(CivilDateTime::new(2023, 1, u32::MAX, 0, 0), None);
}

#[test]
fn minutes_off_the_clock_are_refused() {
    assert_eq!(CivilDateTime::new(2023, 6, 15, 24, 0), None);
    assert_eq!(CivilDateTime::new(2023, 6, 15, 23, 60), None);
    assert_eq!(CivilDateTime::new(2023, 6, 15, u32::MAX, 0), None);
    assert!(CivilDateTime::new(2023, 6, 15, 23, 59).is_some());
}

fn is_leap(year: i32) -> bool {
    year.rem_euclid(4) == 0 && (year.rem_euclid(100) != 0 || year.rem_euclid(400) == 0)
}

fn month_length(year: i32, month: u32) -> u32 {
    match month {
        2 if is_leap(year) => 29,
        2 => 28,
        4 | 6 | 9 | 11 => 30,
        1..=12 => 31,
        _ => 0,
    }
}

#[test]
fn calendar_rule_is_the_rule_of_the_date_library() {
    let years = [
        MIN_YEAR - 1, MIN_YEAR, MIN_YEAR + 1, -401, -400, -399, -101, -100, -5, -4, -1, 0, 1, 4, 100, 400, 1582, 1899,
        1900, 1999, 2000, 2023, 2024, 2100, 2400, MAX_YEAR - 1, MAX_YEAR, MAX_YEAR + 1, i32::MIN, i32::MAX,
    ];
    for year in years {
        for month in 0..=13u32 {
            for day in 0..=32u32 {
                let stated =
                    MIN_YEAR <= year && year <= MAX_YEAR && 1 <= day && day <= month_length(year, month);
                assert_eq!(NaiveDate::from_ymd_opt(year, month, day).is_some(), stated);
                assert_eq!(CivilDateTime::new(year, month, day, 0, 0).is_some(), stated);
            }
        }
    }
}

#[test]
fn clock_rule_is_the_rule_of_the_date_library() {
    for hour in 0..=25u32 {
        for minute in 0..=61u32 {
            for second in [0u32, 59, 60] {
                let stated = hour < 24 && minute < 60 && second < 60;
                assert_eq!(NaiveTime::from_hms_opt(hour, minute, second).is_some(), stated);
            }
            assert_eq!(CivilDateTime::new(2024, 1, 1, hour, minute).is_some(), hour < 24 && minute < 60);
        }
    }
}
