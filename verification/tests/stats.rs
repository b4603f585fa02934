use will_counter_api::stats::build_statistics_response;
use will_counter_api::types::{DailyStat, SupabaseWillCount};

fn sample_count(date: &str, count: i32, sessions: usize) -> SupabaseWillCount {
    SupabaseWillCount {
        id: uuid::Uuid::new_v4().as_u128(),
        user_id: uuid::Uuid::new_v4().as_u128(),
        date: date.to_string(),
        count,
        timestamps: (0..sessions).map(|_| "2025-12-20T00:00:00Z".to_string()).collect(),
        created_at: "2025-12-20T00:00:00Z".to_string(),
        updated_at: "2025-12-20T00:00:00Z".to_string(),
    }
}

fn weekly_average(total: i32, days: i32) -> f64 {
    if days > 0 {
        total as f64 / days as f64
    } else {
        0.0
    }
}

#[test]
fn build_statistics_response_calculates_expected_values() {
    let today = chrono::NaiveDate::from_ymd_opt(2025, 12, 22).unwrap();
    let stats = build_statistics_response(
        vec![sample_count("2025-12-22", 3, 2), sample_count("2025-12-21", 5, 1)],
        14,
        &today.to_string(),
    )
    .unwrap();

    assert_eq!(stats.total_count, 8);
    assert_eq!(stats.today_count, 3);
    assert_eq!(stats.daily_counts.len(), 2);
    assert_eq!(stats.daily_counts[0].sessions, 2);
    assert!(
        (weekly_average(stats.total_count, stats.weekly_days) - (8.0 / 7.0)).abs() < f64::EPSILON
    );
}

#[test]
fn build_statistics_response_handles_empty_input() {
    let today = chrono::NaiveDate::from_ymd_opt(2025, 12, 22).unwrap();
    let stats = build_statistics_response(vec![], 14, &today.to_string()).unwrap();

    assert_eq!(stats.total_count, 0);
    assert_eq!(stats.today_count, 0);
    assert_eq!(weekly_average(stats.total_count, stats.weekly_days), 0.0);
    assert!(stats.daily_counts.is_empty());
}

#[test]
fn statistics_list_every_day_in_order() {
    let stats = build_statistics_response(
        vec![sample_count("2025-12-22", 3, 2), sample_count("2025-12-21", 5, 1)],
        14,
        "2025-12-22",
    )
    .unwrap();
    assert_eq!(
        stats.daily_counts,
        vec![
            DailyStat { date: "2025-12-22".to_string(), count: 3, sessions: 2 },
            DailyStat { date: "2025-12-21".to_string(), count: 5, sessions: 1 },
        ]
    );
}

#[test]
fn statistics_divide_by_seven_days_at_most() {
    let days_of = |days: i32| build_statistics_response(vec![], days, "2025-12-22").unwrap().weekly_days;
    assert_eq!(days_of(14), 7);
    assert_eq!(days_of(7), 7);
    assert_eq!(days_of(6), 6);
    assert_eq!(days_of(1), 1);
    assert_eq!(days_of(0), 0);
    assert_eq!(days_of(-3), 0);
    assert_eq!(days_of(i32::MAX), 7);
    assert_eq!(days_of(i32::MIN), 0);
}

#[test]
fn statistics_take_today_from_the_first_counter_of_the_day() {
    let stats = build_statistics_response(
        vec![
            sample_count("2025-12-21", 5, 1),
            sample_count("2025-12-22", 3, 2),
            sample_count("2025-12-22", 9, 0),
        ],
        30,
        "2025-12-22",
    )
    .unwrap();
    assert_eq!(stats.today_count, 3);
    assert_eq!(stats.total_count, 17);
}

#[test]
fn statistics_without_a_counter_of_today() {
    let stats =
        build_statistics_response(vec![sample_count("2025-12-21", 5, 1)], 30, "2025-12-22").unwrap();
    assert_eq!(stats.today_count, 0);
    assert_eq!(stats.total_count, 5);
}

#[test]
fn statistics_whose_total_fits_no_count() {
    let big = vec![sample_count("2025-12-21", i32::MAX, 0), sample_count("2025-12-22", 1, 0)];
    assert_eq!(build_statistics_response(big, 30, "2025-12-22"), None);
    let small = vec![sample_count("2025-12-21", i32::MIN, 0), sample_count("2025-12-22", -1, 0)];
    assert_eq!(build_statistics_response(small, 30, "2025-12-22"), None);
    let edge = vec![sample_count("2025-12-21", i32::MAX, 0), sample_count("2025-12-22", 0, 0)];
    assert_eq!(build_statistics_response(edge, 30, "2025-12-22").unwrap().total_count, i32::MAX);
    let back = vec![
        sample_count("2025-12-21", i32::MAX, 0),
        sample_count("2025-12-22", 5, 0),
        sample_count("2025-12-23", -5, 0),
    ];
    assert_eq!(build_statistics_response(back, 30, "2025-12-22").unwrap().total_count, i32::MAX);
}
