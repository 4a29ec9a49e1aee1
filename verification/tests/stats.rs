use chrono::{DateTime, Duration, Local, NaiveDate, TimeZone};
use focustrail::domain::{SessionRecord, SessionRecordStatus, SessionTimeType};
use focustrail::stats::{
    completed_seconds_by_date, daily_progress_at, progress_inputs_fit, seconds_on, streak_days_from_yesterday, DailyProgress,
};
use std::collections::HashMap;
use focustrail::storage::Settings;
use focustrail::time::LocalTime;

fn settings(daily_reset_minutes: u32) -> Settings {
    Settings {
        daily_goal_minutes: 60,
        daily_reset_minutes,
        include_weekends_in_streak: true,
        focus_minutes: 30,
        rest_minutes: 5,
        skip_rest: false,
    }
}

fn local_time(year: i32, month: u32, day: u32, hour: u32, minute: u32) -> DateTime<Local> {
    let local = NaiveDate::from_ymd_opt(year, month, day)
        .and_then(|date| date.and_hms_opt(hour, minute, 0))
        .and_then(|datetime| Local.from_local_datetime(&datetime).earliest())
        .expect("test datetime should be valid in the local timezone");
    local
}

fn plain(datetime: DateTime<Local>) -> LocalTime {
    LocalTime {
        secs: datetime.timestamp(),
        nanos: datetime.timestamp_subsec_nanos(),
        offset_seconds: datetime.offset().local_minus_utc(),
    }
}

fn record(ended_at: DateTime<Local>, time_type: SessionTimeType, actual_seconds: u64) -> SessionRecord {
    SessionRecord {
        id: "test-record".to_string(),
        session_id: "test-session".to_string(),
        time_type,
        status: SessionRecordStatus::Completed,
        planned_minutes: (actual_seconds / 60) as u32,
        actual_seconds,
        started_at: plain(ended_at - Duration::seconds(actual_seconds as i64)),
        ended_at: plain(ended_at),
    }
}

fn progress_at(records: &[SessionRecord], settings: &Settings, now: DateTime<Local>) -> DailyProgress {
    daily_progress_at(records, settings, plain(now))
}

#[test]
fn uses_previous_period_before_daily_reset_time() {
    let records = vec![
        record(local_time(2026, 5, 13, 5, 0), SessionTimeType::Focus, 30 * 60),
        record(local_time(2026, 5, 13, 5, 5), SessionTimeType::Rest, 10 * 60),
        record(local_time(2026, 5, 12, 5, 0), SessionTimeType::Focus, 60 * 60),
    ];

    let progress = progress_at(&records, &settings(4 * 60), local_time(2026, 5, 14, 3, 30));

    assert_eq!(progress.today_completed_seconds, 30 * 60);
    assert_eq!(progress.today_rest_seconds, 10 * 60);
    assert_eq!(progress.yesterday_completed_seconds, 60 * 60);
    assert_eq!(progress.today_remaining_seconds, 30 * 60);
    assert_eq!(progress.streak_days, 1);
}

#[test]
fn starts_new_period_after_daily_reset_time() {
    let records = vec![
        record(local_time(2026, 5, 14, 3, 30), SessionTimeType::Focus, 45 * 60),
        record(local_time(2026, 5, 14, 4, 30), SessionTimeType::Focus, 20 * 60),
        record(local_time(2026, 5, 14, 4, 35), SessionTimeType::Rest, 5 * 60),
    ];

    let progress = progress_at(&records, &settings(4 * 60), local_time(2026, 5, 14, 5, 0));

    assert_eq!(progress.today_completed_seconds, 20 * 60);
    assert_eq!(progress.today_rest_seconds, 5 * 60);
    assert_eq!(progress.yesterday_completed_seconds, 45 * 60);
}

fn settings_with(include_weekends: bool, goal: u32) -> Settings {
    Settings {
        daily_goal_minutes: goal,
        daily_reset_minutes: 0,
        include_weekends_in_streak: include_weekends,
        focus_minutes: 30,
        rest_minutes: 5,
        skip_rest: false,
    }
}

fn utc_record(day_secs: i64, time_type: SessionTimeType, status: SessionRecordStatus, actual_seconds: u64) -> SessionRecord {
    let t = LocalTime { secs: day_secs, nanos: 0, offset_seconds: 0 };
    SessionRecord {
        id: "x".to_string(),
        session_id: "y".to_string(),
        time_type,
        status,
        planned_minutes: 60,
        actual_seconds,
        started_at: t,
        ended_at: t,
    }
}

// 2026-05-18 (a Monday) at noon UTC.
const MONDAY_NOON: i64 = 1779105600;
const DAY: i64 = 86400;

#[test]
fn cancelled_and_rest_records_do_not_count_toward_the_goal() {
    let records = vec![
        utc_record(MONDAY_NOON - 3600, SessionTimeType::Focus, SessionRecordStatus::Cancelled, 3600),
        utc_record(MONDAY_NOON - 3600, SessionTimeType::Rest, SessionRecordStatus::Completed, 900),
        utc_record(MONDAY_NOON - 7200, SessionTimeType::Rest, SessionRecordStatus::Cancelled, 900),
        utc_record(MONDAY_NOON - 60, SessionTimeType::Focus, SessionRecordStatus::Completed, 1200),
    ];
    let p = daily_progress_at(&records, &settings_with(true, 60), LocalTime { secs: MONDAY_NOON, nanos: 0, offset_seconds: 0 });
    assert_eq!(p.daily_goal_minutes, 60);
    assert_eq!(p.today_completed_seconds, 1200);
    assert_eq!(p.today_rest_seconds, 900);
    assert_eq!(p.today_remaining_seconds, 2400);
    assert_eq!(p.yesterday_completed_seconds, 0);
    assert_eq!(p.streak_days, 0);
}

#[test]
fn streaks_skip_weekends_when_they_do_not_count() {
    let records = vec![
        utc_record(MONDAY_NOON - 3 * DAY, SessionTimeType::Focus, SessionRecordStatus::Completed, 3600),
        utc_record(MONDAY_NOON - 4 * DAY, SessionTimeType::Focus, SessionRecordStatus::Completed, 3600),
        utc_record(MONDAY_NOON - 5 * DAY, SessionTimeType::Focus, SessionRecordStatus::Completed, 3000),
    ];
    let now = LocalTime { secs: MONDAY_NOON, nanos: 0, offset_seconds: 0 };
    let without_weekends = daily_progress_at(&records, &settings_with(false, 60), now);
    assert_eq!(without_weekends.streak_days, 2);
    let with_weekends = daily_progress_at(&records, &settings_with(true, 60), now);
    assert_eq!(with_weekends.streak_days, 0);
    let more = vec![
        utc_record(MONDAY_NOON - DAY, SessionTimeType::Focus, SessionRecordStatus::Completed, 3600),
        utc_record(MONDAY_NOON - 2 * DAY, SessionTimeType::Focus, SessionRecordStatus::Completed, 3700),
        utc_record(MONDAY_NOON - 3 * DAY, SessionTimeType::Focus, SessionRecordStatus::Completed, 1800),
        utc_record(MONDAY_NOON - 3 * DAY + 60, SessionTimeType::Focus, SessionRecordStatus::Completed, 1800),
    ];
    assert_eq!(daily_progress_at(&more, &settings_with(true, 60), now).streak_days, 3);
}

#[test]
fn goals_are_clamped_and_remaining_time_never_negative() {
    let records = vec![utc_record(MONDAY_NOON, SessionTimeType::Focus, SessionRecordStatus::Completed, 99_999)];
    let now = LocalTime { secs: MONDAY_NOON + 10, nanos: 0, offset_seconds: 0 };
    let p = daily_progress_at(&records, &settings_with(true, 0), now);
    assert_eq!(p.daily_goal_minutes, 1);
    assert_eq!(p.today_remaining_seconds, 0);
    let q = daily_progress_at(&[], &settings_with(true, 10_000), now);
    assert_eq!(q.daily_goal_minutes, 720);
    assert_eq!(q.today_remaining_seconds, 720 * 60);
    let r = focustrail::stats::daily_progress(&records, &settings_with(true, 60));
    assert_eq!(r.daily_goal_minutes, 60);
}

// Day number of 2026-05-18 counted from 1970-01-01.
const MONDAY: i64 = MONDAY_NOON / DAY;

#[test]
fn completed_seconds_are_tabled_by_reporting_day() {
    let records = vec![
        utc_record(MONDAY_NOON, SessionTimeType::Focus, SessionRecordStatus::Completed, 600),
        utc_record(MONDAY_NOON + 60, SessionTimeType::Focus, SessionRecordStatus::Completed, 300),
        utc_record(MONDAY_NOON - DAY, SessionTimeType::Focus, SessionRecordStatus::Completed, 0),
        utc_record(MONDAY_NOON - 2 * DAY, SessionTimeType::Focus, SessionRecordStatus::Cancelled, 900),
        utc_record(MONDAY_NOON - 3 * DAY, SessionTimeType::Rest, SessionRecordStatus::Completed, 900),
    ];
    let focus = completed_seconds_by_date(&records, SessionTimeType::Focus, 0);
    assert_eq!(focus.len(), 2);
    assert_eq!(focus.get(&MONDAY), Some(&900));
    assert_eq!(focus.get(&(MONDAY - 1)), Some(&0));
    assert_eq!(seconds_on(&focus, MONDAY - 2), 0);
    let rest = completed_seconds_by_date(&records, SessionTimeType::Rest, 0);
    assert_eq!(rest.len(), 1);
    assert_eq!(seconds_on(&rest, MONDAY - 3), 900);
    // A reset at 13:00 moves the noon records to the previous reporting day.
    let late_reset = completed_seconds_by_date(&records, SessionTimeType::Focus, 13 * 60);
    assert_eq!(seconds_on(&late_reset, MONDAY - 1), 900);
    assert_eq!(seconds_on(&late_reset, MONDAY), 0);
}

#[test]
fn streak_counts_back_through_the_table() {
    let mut table: HashMap<i64, u64> = HashMap::new();
    // Friday, Thursday and Wednesday before MONDAY met a one-hour goal;
    // Tuesday did not.
    table.insert(MONDAY - 3, 3600);
    table.insert(MONDAY - 4, 4000);
    table.insert(MONDAY - 5, 3600);
    table.insert(MONDAY - 6, 100);
    assert_eq!(streak_days_from_yesterday(&table, MONDAY - 1, 3600, false), 3);
    assert_eq!(streak_days_from_yesterday(&table, MONDAY - 1, 3600, true), 0);
    assert_eq!(streak_days_from_yesterday(&table, MONDAY - 3, 3600, true), 3);
    assert_eq!(streak_days_from_yesterday(&table, MONDAY - 3, 4000, true), 0);
}

#[test]
fn progress_inputs_fit_exactly_when_the_total_fits_in_u64() {
    let s = settings_with(true, 60);
    assert!(progress_inputs_fit(&[], &s));
    let fits = vec![
        utc_record(MONDAY_NOON, SessionTimeType::Focus, SessionRecordStatus::Completed, u64::MAX - 1),
        utc_record(MONDAY_NOON, SessionTimeType::Rest, SessionRecordStatus::Cancelled, 1),
    ];
    assert!(progress_inputs_fit(&fits, &s));
    let too_much = vec![
        utc_record(MONDAY_NOON, SessionTimeType::Focus, SessionRecordStatus::Completed, u64::MAX),
        utc_record(MONDAY_NOON, SessionTimeType::Rest, SessionRecordStatus::Cancelled, 1),
    ];
    assert!(!progress_inputs_fit(&too_much, &s));
}

#[test]
fn cancelled_records_change_no_report_and_rest_only_todays_rest() {
    let records = vec![
        utc_record(MONDAY_NOON - 60, SessionTimeType::Focus, SessionRecordStatus::Completed, 1200),
        utc_record(MONDAY_NOON - DAY, SessionTimeType::Focus, SessionRecordStatus::Completed, 3600),
    ];
    let now = LocalTime { secs: MONDAY_NOON, nanos: 0, offset_seconds: 0 };
    let s = settings_with(true, 60);
    let base = daily_progress_at(&records, &s, now);
    let mut cancelled = records.clone();
    cancelled.push(utc_record(MONDAY_NOON - 30, SessionTimeType::Focus, SessionRecordStatus::Cancelled, 9999));
    assert_eq!(daily_progress_at(&cancelled, &s, now), base);
    let mut rested = records.clone();
    rested.push(utc_record(MONDAY_NOON - 30, SessionTimeType::Rest, SessionRecordStatus::Completed, 300));
    let with_rest = daily_progress_at(&rested, &s, now);
    assert_eq!(with_rest.today_rest_seconds, base.today_rest_seconds + 300);
    assert_eq!(DailyProgress { today_rest_seconds: base.today_rest_seconds, ..with_rest }, base);
    let mut old_rest = records.clone();
    old_rest.push(utc_record(MONDAY_NOON - 2 * DAY, SessionTimeType::Rest, SessionRecordStatus::Completed, 300));
    assert_eq!(daily_progress_at(&old_rest, &s, now), base);
}
