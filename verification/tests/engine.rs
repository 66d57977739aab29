//! The analytics engine on concrete inputs: streaks, the weekly window,
//! and the assembled dashboard snapshot.

use calmcontrol::date::{parse_date, Date};
use calmcontrol::stats::{
    assemble_stats, assemble_weekly, calculate_streak, compute_streak, compute_weekly,
};

fn day(s: &str) -> Date {
    parse_date(s).expect("test date must parse")
}

#[test]
fn streak_of_empty_list_is_zero() {
    let today = day("2024-03-10");
    assert_eq!(compute_streak(&vec![], today), 0);
    assert_eq!(calculate_streak(&vec![], today), 0);
}

#[test]
fn streak_counts_consecutive_days_from_today() {
    let today = day("2024-03-10");
    let dates = vec![day("2024-03-10"), day("2024-03-09"), day("2024-03-08")];
    assert_eq!(compute_streak(&dates, today), 3);
}

#[test]
fn streak_is_zero_when_most_recent_day_is_not_today() {
    let today = day("2024-03-10");
    let dates = vec![day("2024-03-09"), day("2024-03-08")];
    assert_eq!(compute_streak(&dates, today), 0);
}

#[test]
fn streak_stops_at_first_gap() {
    let today = day("2024-03-10");
    let dates = vec![day("2024-03-10"), day("2024-03-08")];
    assert_eq!(compute_streak(&dates, today), 1);
}

#[test]
fn streak_runs_across_month_and_leap_boundaries() {
    let today = day("2024-03-01");
    let dates = vec![day("2024-03-01"), day("2024-02-29"), day("2024-02-28")];
    assert_eq!(compute_streak(&dates, today), 3);

    let today = day("2023-03-01");
    let dates = vec![day("2023-03-01"), day("2023-02-28")];
    assert_eq!(compute_streak(&dates, today), 2);
}

#[test]
fn streak_skips_unparseable_date_strings_silently() {
    let today = day("2024-03-10");
    let dates = vec![
        "2024-03-10".to_string(),
        "not a date".to_string(),
        "2024-03-09".to_string(),
    ];
    assert_eq!(calculate_streak(&dates, today), 2);
}

#[test]
fn streak_is_deterministic_on_identical_inputs() {
    let today = day("2024-03-10");
    let dates = vec![day("2024-03-10"), day("2024-03-09"), day("2024-03-07")];
    assert_eq!(compute_streak(&dates, today), compute_streak(&dates, today));
    let strs = vec!["2024-03-10".to_string(), "2024-03-09".to_string()];
    assert_eq!(calculate_streak(&strs, today), calculate_streak(&strs, today));
}

#[test]
fn a_single_event_today_is_a_streak_of_one() {
    let today = day("2024-03-10");
    assert_eq!(compute_streak(&vec![day("2024-03-10")], today), 1);
}

#[test]
fn weekly_of_empty_input_is_all_zero() {
    let today = day("2024-03-10");
    assert_eq!(compute_weekly(&vec![], today), [0, 0, 0, 0, 0, 0, 0]);
}

#[test]
fn weekly_places_today_last_and_six_days_ago_first() {
    let today = day("2024-03-10");
    let totals = vec![(day("2024-03-10"), 10), (day("2024-03-04"), 5)];
    assert_eq!(compute_weekly(&totals, today), [5, 0, 0, 0, 0, 0, 10]);
}

#[test]
fn weekly_ignores_out_of_window_entries() {
    let today = day("2024-03-10");
    let totals = vec![(day("2024-02-29"), 99)];
    assert_eq!(compute_weekly(&totals, today), [0, 0, 0, 0, 0, 0, 0]);
}

#[test]
fn weekly_keeps_the_latest_entry_for_a_repeated_day() {
    let today = day("2024-03-10");
    let totals = vec![(day("2024-03-10"), 5), (day("2024-03-10"), 7)];
    assert_eq!(compute_weekly(&totals, today), [0, 0, 0, 0, 0, 0, 7]);
}

#[test]
fn weekly_is_deterministic_on_identical_inputs() {
    let today = day("2024-03-10");
    let totals = vec![(day("2024-03-08"), 12), (day("2024-03-06"), 3)];
    assert_eq!(compute_weekly(&totals, today), compute_weekly(&totals, today));
}

#[test]
fn assembled_stats_compose_the_three_queries() {
    let today = day("2024-03-10");
    let dates = vec![
        "2024-03-10".to_string(),
        "2024-03-09".to_string(),
        "2024-03-08".to_string(),
        "2024-03-06".to_string(),
    ];
    let stats = assemble_stats(Some(2), Some(125), Some(dates), today);
    assert_eq!(stats.sessions_today, 2);
    assert_eq!(stats.streak, 3);
    assert_eq!(stats.total_minutes, 125);
}

#[test]
fn assembled_weekly_populates_logged_days_and_leaves_gaps_zero() {
    let today = day("2024-03-10");
    let rows = vec![
        ("2024-03-10".to_string(), 10),
        ("2024-03-09".to_string(), 15),
        ("2024-03-08".to_string(), 5),
        ("2024-03-06".to_string(), 20),
    ];
    let weekly = assemble_weekly(Some(rows), today);
    // day D-4 populated, day D-3 (2024-03-07) zero
    assert_eq!(weekly, [0, 0, 20, 0, 5, 15, 10]);
}

#[test]
fn failed_queries_degrade_to_zero_values() {
    let today = day("2024-03-10");
    let stats = assemble_stats(None, None, None, today);
    assert_eq!(stats.sessions_today, 0);
    assert_eq!(stats.streak, 0);
    assert_eq!(stats.total_minutes, 0);
    assert_eq!(assemble_weekly(None, today), [0, 0, 0, 0, 0, 0, 0]);
}

#[test]
fn assembled_weekly_skips_rows_with_bad_dates() {
    let today = day("2024-03-10");
    let rows = vec![("??".to_string(), 42), ("2024-03-10".to_string(), 7)];
    assert_eq!(assemble_weekly(Some(rows), today), [0, 0, 0, 0, 0, 0, 7]);
}
