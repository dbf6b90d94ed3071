use stock_vision::calendar::date_of_timestamp;
use stock_vision::chart::{
    aggregation_groups, bars_in_range, hovered_global_index, hovered_local_index, time_label, visible_count,
    visible_window, x_label_step,
};
use stock_vision::model::{Date, KlinePeriod};

fn d(year: i32, month: u32, day: u32) -> Date {
    Date { year, month, day }
}

#[test]
fn visible_counts() {
    assert_eq!(visible_count(60, 250), 60);
    assert_eq!(visible_count(5, 250), 10);
    assert_eq!(visible_count(300, 250), 250);
    assert_eq!(visible_count(60, 4), 10);
}

#[test]
fn visible_windows() {
    assert_eq!(visible_window(250, 0, 60), (190, 250));
    assert_eq!(visible_window(250, 20, 60), (170, 230));
    assert_eq!(visible_window(50, 0, 60), (0, 50));
    assert_eq!(visible_window(50, 60, 60), (0, 0));
    assert_eq!(visible_window(0, 0, 10), (0, 0));
}

#[test]
fn hover_indices() {
    assert_eq!(hovered_global_index((170, 230), 5), Some(175));
    assert_eq!(hovered_global_index((170, 230), 60), None);
    assert_eq!(hovered_local_index((170, 230), 175), Some(5));
    assert_eq!(hovered_local_index((170, 230), 230), None);
    assert_eq!(hovered_local_index((170, 230), 3), None);
}

#[test]
fn x_label_steps() {
    assert_eq!(x_label_step(0), 1);
    assert_eq!(x_label_step(3), 1);
    assert_eq!(x_label_step(8), 1);
    assert_eq!(x_label_step(60), 6);
    assert_eq!(x_label_step(95), 9);
}

#[test]
fn time_labels() {
    assert_eq!(time_label("2026-07-01 09:31"), "09:31");
    assert_eq!(time_label("2026-07-01 14:00 x"), "14:00");
    assert_eq!(time_label("09:31"), "09:31");
    assert_eq!(time_label("2026-07-01 "), "");
}

#[test]
fn weekly_groups_split_at_iso_week_boundaries() {
    // Sunday 2024-12-29 is in ISO week 52 of 2024, Monday 2024-12-30 in week 1 of 2025.
    let dates = vec![d(2024, 12, 29), d(2024, 12, 30), d(2025, 1, 5), d(2025, 1, 6)];
    assert_eq!(aggregation_groups(&dates, KlinePeriod::Weekly), vec![(0, 1), (1, 3), (3, 4)]);
    // A leap day is a real day.
    let leap = vec![d(2024, 2, 29), d(2024, 3, 1)];
    assert_eq!(aggregation_groups(&leap, KlinePeriod::Weekly), vec![(0, 2)]);
}

#[test]
fn daily_bars_stay_as_they_are() {
    let dates = vec![d(2025, 1, 2), d(2025, 1, 2), d(2025, 1, 3)];
    assert_eq!(aggregation_groups(&dates, KlinePeriod::Daily), vec![(0, 1), (1, 2), (2, 3)]);
}

#[test]
fn weekly_groups_follow_iso_weeks() {
    // Mon 2024-12-23 .. Fri 12-27 (W52), Mon 12-30, Thu 2025-01-02 (2025 W1), Mon 01-06 (W2)
    let dates = vec![
        d(2024, 12, 23),
        d(2024, 12, 27),
        d(2024, 12, 30),
        d(2025, 1, 2),
        d(2025, 1, 6),
    ];
    assert_eq!(aggregation_groups(&dates, KlinePeriod::Weekly), vec![(0, 2), (2, 4), (4, 5)]);
}

#[test]
fn monthly_and_yearly_groups() {
    let dates = vec![
        d(2024, 11, 29),
        d(2024, 12, 2),
        d(2024, 12, 31),
        d(2025, 1, 2),
        d(2025, 2, 3),
    ];
    assert_eq!(
        aggregation_groups(&dates, KlinePeriod::Monthly),
        vec![(0, 1), (1, 3), (3, 4), (4, 5)]
    );
    assert_eq!(aggregation_groups(&dates, KlinePeriod::Yearly), vec![(0, 3), (3, 5)]);
}

#[test]
fn groups_are_runs_not_sets() {
    // A month that comes back later starts a new group.
    let dates = vec![d(2025, 1, 2), d(2025, 2, 3), d(2025, 1, 6)];
    assert_eq!(aggregation_groups(&dates, KlinePeriod::Monthly), vec![(0, 1), (1, 2), (2, 3)]);
}

#[test]
fn no_bars_no_groups() {
    let dates: Vec<Date> = Vec::new();
    assert!(aggregation_groups(&dates, KlinePeriod::Weekly).is_empty());
    assert!(aggregation_groups(&dates, KlinePeriod::Daily).is_empty());
}

#[test]
fn timestamps_to_dates() {
    assert_eq!(date_of_timestamp(1_704_067_200), Some(d(2024, 1, 1)));
    assert_eq!(date_of_timestamp(1_704_067_200 + 86_399), Some(d(2024, 1, 1)));
    // Whole days are counted toward zero.
    assert_eq!(date_of_timestamp(-1), Some(d(1970, 1, 1)));
    assert_eq!(date_of_timestamp(-86_400), Some(d(1969, 12, 31)));
    assert_eq!(date_of_timestamp(0), Some(d(1970, 1, 1)));
    assert_eq!(date_of_timestamp(1_704_067_200 - 1), Some(d(2023, 12, 31)));
    assert_eq!(date_of_timestamp(i64::MIN), None);
    assert_eq!(date_of_timestamp(i64::MAX), None);
}

#[test]
fn range_keeps_bars_on_or_after_the_cutoff() {
    let dates = vec![d(2023, 12, 31), d(2024, 1, 1), d(2024, 1, 2), d(2023, 6, 1), d(2025, 1, 1)];
    assert_eq!(bars_in_range(&dates, Some(d(2024, 1, 1))), vec![1, 2, 4]);
    assert_eq!(bars_in_range(&dates, Some(d(2024, 1, 2))), vec![2, 4]);
    assert_eq!(bars_in_range(&dates, Some(d(2026, 1, 1))), Vec::<usize>::new());
    assert_eq!(bars_in_range(&dates, None), vec![0, 1, 2, 3, 4]);
    assert_eq!(bars_in_range(&Vec::new(), Some(d(2024, 1, 1))), Vec::<usize>::new());
}

#[test]
fn timestamps_far_out_of_range() {
    // chrono's range ends on 262142-12-31, day 95026236.
    assert_eq!(date_of_timestamp(95_026_236 * 86_400), Some(d(262142, 12, 31)));
    assert_eq!(date_of_timestamp(95_026_237 * 86_400), None);
    assert_eq!(date_of_timestamp(-96_465_292 * 86_400), Some(d(-262143, 1, 1)));
    assert_eq!(date_of_timestamp(-96_465_293 * 86_400), None);
}
