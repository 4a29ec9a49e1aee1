use focustrail::domain::{SessionRecord, SessionRecordStatus, SessionTimeType};
use focustrail::storage::{
    default_focus_minutes, default_include_weekends_in_streak, default_rest_minutes,
    normalize_daily_reset_minutes, normalize_loaded_settings, round_goal_to_hours,
    session_file_name, update_daily_goal, update_focus_preferences, Settings,
};
use focustrail::time::LocalTime;

#[test]
fn goals_round_to_whole_hours_between_one_and_twelve() {
    assert_eq!(round_goal_to_hours(0), 60);
    assert_eq!(round_goal_to_hours(89), 60);
    assert_eq!(round_goal_to_hours(90), 120);
    assert_eq!(round_goal_to_hours(240), 240);
    assert_eq!(round_goal_to_hours(749), 720);
    assert_eq!(round_goal_to_hours(100_000), 720);
    assert_eq!(round_goal_to_hours(round_goal_to_hours(150)), round_goal_to_hours(150));
}

#[test]
fn reset_time_is_at_most_23_59() {
    assert_eq!(normalize_daily_reset_minutes(0), 0);
    assert_eq!(normalize_daily_reset_minutes(1439), 1439);
    assert_eq!(normalize_daily_reset_minutes(1440), 1439);
    assert_eq!(normalize_daily_reset_minutes(u32::MAX), 1439);
}

#[test]
fn default_settings_and_missing_fields() {
    let s = Settings::default();
    assert_eq!(s.daily_goal_minutes, 240);
    assert_eq!(s.daily_reset_minutes, 0);
    assert!(s.include_weekends_in_streak);
    assert_eq!(s.focus_minutes, 30);
    assert_eq!(s.rest_minutes, 5);
    assert!(!s.skip_rest);
    assert!(default_include_weekends_in_streak());
    assert_eq!(default_focus_minutes(), 30);
    assert_eq!(default_rest_minutes(), 5);
}

#[test]
fn loaded_settings_are_normalised() {
    let raw = Settings {
        daily_goal_minutes: 45,
        daily_reset_minutes: 5000,
        include_weekends_in_streak: false,
        focus_minutes: 0,
        rest_minutes: 500,
        skip_rest: false,
    };
    let s = normalize_loaded_settings(raw);
    assert_eq!(s.daily_goal_minutes, 60);
    assert_eq!(s.daily_reset_minutes, 1439);
    assert!(!s.include_weekends_in_streak);
    assert_eq!(s.focus_minutes, 1);
    assert_eq!(s.rest_minutes, 120);
    assert_eq!(normalize_loaded_settings(s), s);
    let skip = normalize_loaded_settings(Settings { skip_rest: true, rest_minutes: 9, ..raw });
    assert_eq!(skip.rest_minutes, 0);
}

#[test]
fn preferences_and_goals_update_settings() {
    let s = Settings::default();
    let p = update_focus_preferences(s, 1000, 0, false);
    assert_eq!(p.focus_minutes, 720);
    assert_eq!(p.rest_minutes, 1);
    assert!(!p.skip_rest);
    let q = update_focus_preferences(s, 45, 10, true);
    assert_eq!(q.focus_minutes, 45);
    assert_eq!(q.rest_minutes, 0);
    assert!(q.skip_rest);
    let g = update_daily_goal(s, 200, 2000, false);
    assert_eq!(g.daily_goal_minutes, 180);
    assert_eq!(g.daily_reset_minutes, 1439);
    assert!(!g.include_weekends_in_streak);
    assert_eq!(g.focus_minutes, s.focus_minutes);
}

#[test]
fn records_go_to_the_log_of_their_starting_month() {
    let r = SessionRecord {
        id: "a".to_string(),
        session_id: "b".to_string(),
        time_type: SessionTimeType::Focus,
        status: SessionRecordStatus::Completed,
        planned_minutes: 1,
        actual_seconds: 1,
        started_at: LocalTime { secs: 1777593600, nanos: 0, offset_seconds: -3600 },
        ended_at: LocalTime { secs: 1777593700, nanos: 0, offset_seconds: -3600 },
    };
    assert_eq!(session_file_name(&r), "2026-04.jsonl");
    let mut later = r.clone();
    later.started_at.offset_seconds = 0;
    assert_eq!(session_file_name(&later), "2026-05.jsonl");
    assert_eq!(r.duration_seconds(), 1);
}
