use bench_pg_rs::period::{Date, Period};

#[test]
fn year_period_is_year_times_hundred_plus_month() {
    assert_eq!(Period::new(2025, 3).year_period(), 202503);
    assert_eq!(Period::new(2024, 12).year_period(), 202412);
}

#[test]
fn next_period_wraps_into_next_year() {
    assert_eq!(Period::new(2025, 12).next_period(), Period::new(2026, 1));
    assert_eq!(Period::new(2025, 5).next_period(), Period::new(2025, 6));
}

#[test]
fn prev_period_wraps_into_previous_year() {
    assert_eq!(Period::new(2025, 1).prev_period(), Period::new(2024, 12));
    assert_eq!(Period::new(2025, 7).prev_period(), Period::new(2025, 6));
}

#[test]
fn next_and_prev_undo_each_other() {
    for m in 1..=12 {
        let p = Period::new(2025, m);
        assert_eq!(p.next_period().prev_period(), p);
        assert_eq!(p.prev_period().next_period(), p);
    }
}

#[test]
fn year_period_keys_increase_with_periods() {
    let mut p = Period::new(2024, 1);
    for _ in 0..30 {
        let n = p.next_period();
        assert!(p.year_period() < n.year_period());
        p = n;
    }
}

#[test]
fn last_day_of_each_month() {
    let days = [31, 28, 31, 30, 31, 30, 31, 31, 30, 31, 30, 31];
    for m in 1..=12 {
        assert_eq!(Period::new(2025, m).last_day(), days[(m - 1) as usize]);
    }
}

#[test]
fn february_follows_the_leap_year_rule() {
    assert_eq!(Period::new(2024, 2).last_day(), 29);
    assert_eq!(Period::new(1900, 2).last_day(), 28);
    assert_eq!(Period::new(2000, 2).last_day(), 29);
    assert!(Period::new(2024, 1).is_leap_year());
    assert!(!Period::new(2100, 1).is_leap_year());
}

#[test]
fn first_and_last_dates() {
    let p = Period::new(2024, 2);
    assert_eq!(p.first_date(), Date { year: 2024, month: 2, day: 1 });
    assert_eq!(p.last_date(), Date { year: 2024, month: 2, day: 29 });
}

#[test]
fn date_is_clamped_into_the_month() {
    let p = Period::new(2025, 4);
    assert_eq!(p.date(0), Date { year: 2025, month: 4, day: 1 });
    assert_eq!(p.date(15), Date { year: 2025, month: 4, day: 15 });
    assert_eq!(p.date(31), Date { year: 2025, month: 4, day: 30 });
}

#[test]
fn first_and_last_period_of_the_year() {
    let p = Period::new(2025, 6);
    assert_eq!(p.first_period(), Period::new(2025, 1));
    assert_eq!(p.last_period(), Period::new(2025, 12));
    assert_eq!(p.year(), 2025);
    assert_eq!(p.month(), 6);
}

#[test]
fn period_of_a_date() {
    let d = Date::from_ymd_opt(2025, 8, 17).unwrap();
    assert_eq!(Period::from(d), Period::new(2025, 8));
}

#[test]
fn period_text_has_two_digit_month() {
    assert_eq!(Period::new(2025, 3).fmt(), "2025.03");
    assert_eq!(Period::new(2025, 11).fmt(), "2025.11");
    assert_eq!(Period::new(-5, 1).fmt(), "-5.01");
}

#[test]
fn dates_exist_only_within_chrono_range() {
    assert!(Date::from_ymd_opt(2023, 2, 29).is_none());
    assert!(Date::from_ymd_opt(2024, 2, 29).is_some());
    assert!(Date::from_ymd_opt(2024, 13, 1).is_none());
    assert!(Date::from_ymd_opt(2024, 4, 31).is_none());
    assert!(Date::from_ymd_opt(262142, 12, 31).is_some());
    assert!(Date::from_ymd_opt(262143, 1, 1).is_none());
    assert!(Date::from_ymd_opt(-262143, 1, 1).is_some());
    assert!(Date::from_ymd_opt(-262144, 12, 31).is_none());
}
