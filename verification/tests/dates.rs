//! The date parser and the day-number calendar.

use calmcontrol::date::{from_ymd, parse_date, Date};

#[test]
fn parses_a_well_formed_iso_date() {
    let d = parse_date("2024-03-10").unwrap();
    assert!(d.days > 0);
}

#[test]
fn day_zero_is_the_first_of_january_of_year_zero() {
    assert_eq!(parse_date("0000-01-01"), Some(Date { days: 0 }));
    assert_eq!(parse_date("0000-01-02"), Some(Date { days: 1 }));
}

#[test]
fn consecutive_dates_have_consecutive_day_numbers() {
    let pairs = [
        ("2024-03-09", "2024-03-10"),
        ("2024-02-29", "2024-03-01"),
        ("2023-02-28", "2023-03-01"),
        ("2023-12-31", "2024-01-01"),
        ("2024-04-30", "2024-05-01"),
    ];
    for (a, b) in pairs {
        let da = parse_date(a).unwrap();
        let db = parse_date(b).unwrap();
        assert_eq!(da.days + 1, db.days, "{} then {}", a, b);
    }
}

#[test]
fn rejects_impossible_calendar_dates() {
    assert_eq!(parse_date("2024-02-30"), None);
    assert_eq!(parse_date("2023-02-29"), None);
    assert_eq!(parse_date("2024-13-01"), None);
    assert_eq!(parse_date("2024-00-10"), None);
    assert_eq!(parse_date("2024-04-31"), None);
    assert_eq!(parse_date("2024-03-00"), None);
}

#[test]
fn rejects_strings_of_the_wrong_shape() {
    assert_eq!(parse_date(""), None);
    assert_eq!(parse_date("not a date"), None);
    assert_eq!(parse_date("2024-3-10"), None);
    assert_eq!(parse_date("2024/03/10"), None);
    assert_eq!(parse_date("2024-03-10 "), None);
    assert_eq!(parse_date("24-03-10"), None);
}

#[test]
fn from_ymd_checks_month_lengths_and_leap_years() {
    assert!(from_ymd(2024, 2, 29).is_some());
    assert!(from_ymd(2023, 2, 29).is_none());
    assert!(from_ymd(1900, 2, 29).is_none());
    assert!(from_ymd(2000, 2, 29).is_some());
    assert!(from_ymd(2024, 6, 31).is_none());
    assert!(from_ymd(-1, 1, 1).is_none());
    assert!(from_ymd(10000, 1, 1).is_none());
}

#[test]
fn the_far_end_of_the_calendar_has_the_expected_day_number() {
    // 9999 years of 365 days, 2425 leap days, 334 days before December, 30 more.
    assert_eq!(parse_date("9999-12-31"), Some(Date { days: 3652424 }));
}

#[test]
fn back_steps_a_date_by_whole_days() {
    let d = parse_date("2024-03-10").unwrap();
    assert_eq!(d.back(1), parse_date("2024-03-09").unwrap());
    assert_eq!(d.back(10), parse_date("2024-02-29").unwrap());
}
