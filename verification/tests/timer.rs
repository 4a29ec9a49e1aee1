use focustrail::domain::{
    apply_idle_preferences, cancel_timer, cancel_timer_at, default_session_time_type,
    finish_before_exit, pause_timer_at, resume_timer_at, save_and_reset_timer_at,
    snapshot_timer, snapshot_timer_at, start_timer, start_timer_at, SessionRecordStatus,
    SessionTimeType, TimerLifecycleStatus, TimerPhase, TimerState,
};
use focustrail::time::{LocalTime, Timestamp};

const BASE: i64 = 1_778_000_000;

fn at(offset: i64) -> Timestamp {
    Timestamp { secs: BASE + offset, nanos: 0 }
}

fn local(offset: i64) -> LocalTime {
    LocalTime { secs: BASE + offset, nanos: 0, offset_seconds: 3600 }
}

#[test]
fn default_timer_is_idle_with_a_25_minute_plan() {
    let t = TimerState::default();
    assert_eq!(t.status, TimerLifecycleStatus::Idle);
    assert_eq!(t.planned_minutes, 25);
    assert_eq!(t.rest_minutes, 0);
    assert_eq!(t.phase, TimerPhase::Focus);
    assert!(t.session_id.is_none());
    assert_eq!(default_session_time_type(), SessionTimeType::Focus);
}

#[test]
fn start_reports_a_running_focus_phase() {
    let mut t = TimerState::default();
    let s = start_timer_at(&mut t, 25, 5, at(0), local(0)).unwrap();
    assert_eq!(s.status, TimerLifecycleStatus::Running);
    assert_eq!(s.phase, TimerPhase::Focus);
    assert_eq!(s.remaining_seconds, 1500);
    assert_eq!(s.phase_total_seconds, 1500);
    assert_eq!(s.accumulated_focus_seconds, 0);
    assert_eq!(s.target_end_at, Some(at(1500)));
    assert_eq!(s.started_at, Some(local(0)));
    assert!(s.session_id.is_some());
    assert_eq!(t.session_id, s.session_id);
}

#[test]
fn start_rejects_an_active_session_and_bad_plans() {
    let mut t = TimerState::default();
    assert_eq!(
        start_timer_at(&mut t, 0, 5, at(0), local(0)).unwrap_err(),
        "Planned minutes must be between 1 and 720"
    );
    assert_eq!(
        start_timer_at(&mut t, 721, 5, at(0), local(0)).unwrap_err(),
        "Planned minutes must be between 1 and 720"
    );
    assert_eq!(
        start_timer_at(&mut t, 30, 121, at(0), local(0)).unwrap_err(),
        "Rest minutes must be between 0 and 120"
    );
    assert_eq!(t.status, TimerLifecycleStatus::Idle);
    start_timer_at(&mut t, 30, 0, at(0), local(0)).unwrap();
    let id = t.session_id.clone();
    assert_eq!(
        start_timer_at(&mut t, 30, 0, at(5), local(5)).unwrap_err(),
        "A focus session is already active"
    );
    assert_eq!(t.session_id, id);
}

#[test]
fn start_uses_the_clock() {
    let mut t = TimerState::default();
    let s = start_timer(&mut t, 1, 0).unwrap();
    assert_eq!(s.status, TimerLifecycleStatus::Running);
    assert!(t.running_started_at.unwrap().secs > 1_600_000_000);
    assert!(t.started_at.unwrap().secs > 1_600_000_000);
    let (snap, records) = snapshot_timer(&mut t);
    assert_eq!(snap.status, TimerLifecycleStatus::Running);
    assert!(records.is_empty());
    let (cancelled, records) = cancel_timer(&mut t).unwrap();
    assert_eq!(cancelled.status, TimerLifecycleStatus::Cancelled);
    assert_eq!(records.len(), 1);
}

#[test]
fn pause_freezes_and_resume_continues() {
    let mut t = TimerState::default();
    start_timer_at(&mut t, 25, 0, at(0), local(0)).unwrap();
    let p = pause_timer_at(&mut t, Timestamp { secs: BASE + 100, nanos: 600_000_000 }, local(100)).unwrap();
    assert_eq!(p.status, TimerLifecycleStatus::Paused);
    assert_eq!(p.accumulated_focus_seconds, 100);
    assert_eq!(p.remaining_seconds, 1400);
    assert_eq!(p.target_end_at, None);
    assert_eq!(p.paused_at, Some(local(100)));
    let (later, records) = snapshot_timer_at(&mut t, at(5000), local(5000));
    assert_eq!(later.remaining_seconds, 1400);
    assert!(records.is_empty());
    let r = resume_timer_at(&mut t, at(6000)).unwrap();
    assert_eq!(r.status, TimerLifecycleStatus::Running);
    assert_eq!(r.remaining_seconds, 1400);
    assert_eq!(r.target_end_at, Some(at(7400)));
    let (s, _) = snapshot_timer_at(&mut t, at(6050), local(6050));
    assert_eq!(s.accumulated_focus_seconds, 150);
    assert_eq!(s.paused_at, None);
}

#[test]
fn pause_and_resume_leave_other_states_alone() {
    let mut t = TimerState::default();
    let p = pause_timer_at(&mut t, at(0), local(0)).unwrap();
    assert_eq!(p.status, TimerLifecycleStatus::Idle);
    let r = resume_timer_at(&mut t, at(0)).unwrap();
    assert_eq!(r.status, TimerLifecycleStatus::Idle);
    start_timer_at(&mut t, 10, 0, at(0), local(0)).unwrap();
    let r = resume_timer_at(&mut t, at(30)).unwrap();
    assert_eq!(r.status, TimerLifecycleStatus::Running);
    assert_eq!(t.running_started_at, Some(at(0)));
}

#[test]
fn focus_hands_over_to_rest_then_completes() {
    let mut t = TimerState::default();
    start_timer_at(&mut t, 25, 5, at(0), local(0)).unwrap();
    let (s, records) = snapshot_timer_at(&mut t, at(1510), local(1510));
    assert!(records.is_empty());
    assert_eq!(s.phase, TimerPhase::Rest);
    assert_eq!(s.accumulated_focus_seconds, 1500);
    assert_eq!(s.accumulated_rest_seconds, 10);
    assert_eq!(s.remaining_seconds, 290);
    assert_eq!(t.running_started_at, Some(at(1500)));
    let (done, records) = snapshot_timer_at(&mut t, at(1900), local(1900));
    assert_eq!(done.status, TimerLifecycleStatus::Completed);
    assert_eq!(done.ended_at, Some(local(1900)));
    assert_eq!(records.len(), 2);
    assert_eq!(records[0].time_type, SessionTimeType::Focus);
    assert_eq!(records[0].actual_seconds, 1500);
    assert_eq!(records[1].time_type, SessionTimeType::Rest);
    assert_eq!(records[1].actual_seconds, 300);
    // Each segment carries its own plan: 25 minutes of focus, 5 of rest.
    assert_eq!(records[0].planned_minutes, 25);
    assert_eq!(records[1].planned_minutes, 5);
    for r in &records {
        assert_eq!(r.status, SessionRecordStatus::Completed);
        assert_eq!(Some(r.session_id.clone()), t.session_id);
        assert_eq!(r.started_at, local(0));
        assert_eq!(r.ended_at, local(1900));
        assert!(!r.id.is_empty());
    }
    assert_ne!(records[0].id, records[1].id);
    let (again, more) = snapshot_timer_at(&mut t, at(2000), local(2000));
    assert_eq!(again.status, TimerLifecycleStatus::Completed);
    assert!(more.is_empty());
}

#[test]
fn a_long_absence_completes_both_phases_at_once() {
    let mut t = TimerState::default();
    start_timer_at(&mut t, 1, 1, at(0), local(0)).unwrap();
    let (done, records) = snapshot_timer_at(&mut t, at(10_000), local(10_000));
    assert_eq!(done.status, TimerLifecycleStatus::Completed);
    assert_eq!(done.phase, TimerPhase::Rest);
    assert_eq!(records.len(), 2);
    assert_eq!(records[0].actual_seconds, 60);
    assert_eq!(records[1].actual_seconds, 60);
}

#[test]
fn focus_without_rest_completes_with_one_record() {
    let mut t = TimerState::default();
    start_timer_at(&mut t, 2, 0, at(0), local(0)).unwrap();
    let (done, records) = snapshot_timer_at(&mut t, at(121), local(121));
    assert_eq!(done.status, TimerLifecycleStatus::Completed);
    assert_eq!(done.remaining_seconds, 0);
    assert_eq!(records.len(), 1);
    assert_eq!(records[0].time_type, SessionTimeType::Focus);
    assert_eq!(records[0].actual_seconds, 120);
}

#[test]
fn cancel_yields_cancelled_records() {
    let mut t = TimerState::default();
    start_timer_at(&mut t, 25, 5, at(0), local(0)).unwrap();
    pause_timer_at(&mut t, at(100), local(100)).unwrap();
    let (s, records) = cancel_timer_at(&mut t, at(200), local(200)).unwrap();
    assert_eq!(s.status, TimerLifecycleStatus::Cancelled);
    assert_eq!(s.ended_at, Some(local(200)));
    assert_eq!(records.len(), 1);
    assert_eq!(records[0].status, SessionRecordStatus::Cancelled);
    assert_eq!(records[0].actual_seconds, 100);
    assert_eq!(records[0].ended_at, local(200));
}

#[test]
fn cancel_at_once_yields_an_empty_record() {
    let mut t = TimerState::default();
    start_timer_at(&mut t, 25, 5, at(0), local(0)).unwrap();
    let (_, records) = cancel_timer_at(&mut t, at(0), local(0)).unwrap();
    assert_eq!(records.len(), 1);
    assert_eq!(records[0].time_type, SessionTimeType::Focus);
    assert_eq!(records[0].actual_seconds, 0);
}

#[test]
fn cancel_without_a_session_id_fails() {
    let mut t = TimerState::default();
    t.status = TimerLifecycleStatus::Running;
    t.started_at = Some(local(0));
    t.running_started_at = Some(at(0));
    assert_eq!(cancel_timer_at(&mut t, at(10), local(10)).unwrap_err(), "Session id is missing");
    let mut u = TimerState::default();
    u.status = TimerLifecycleStatus::Paused;
    u.session_id = Some("s".to_string());
    assert_eq!(
        cancel_timer_at(&mut u, at(10), local(10)).unwrap_err(),
        "Session start time is missing"
    );
}

#[test]
fn cancel_of_an_idle_timer_does_nothing() {
    let mut t = TimerState::default();
    let (s, records) = cancel_timer_at(&mut t, at(10), local(10)).unwrap();
    assert_eq!(s.status, TimerLifecycleStatus::Idle);
    assert!(records.is_empty());
}

#[test]
fn save_and_reset_records_and_returns_to_idle() {
    let mut t = TimerState::default();
    start_timer_at(&mut t, 25, 5, at(0), local(0)).unwrap();
    let (s, records) = save_and_reset_timer_at(&mut t, at(600), local(600)).unwrap();
    assert_eq!(s.status, TimerLifecycleStatus::Idle);
    assert_eq!(s.planned_minutes, 25);
    assert_eq!(s.rest_minutes, 5);
    assert_eq!(s.remaining_seconds, 1500);
    assert!(s.session_id.is_none());
    assert_eq!(records.len(), 1);
    assert_eq!(records[0].status, SessionRecordStatus::Completed);
    assert_eq!(records[0].actual_seconds, 600);
    assert_eq!(t.status, TimerLifecycleStatus::Idle);
}

#[test]
fn save_and_reset_without_time_yields_nothing() {
    let mut t = TimerState::default();
    start_timer_at(&mut t, 25, 5, at(0), local(0)).unwrap();
    let (s, records) = save_and_reset_timer_at(&mut t, at(0), local(0)).unwrap();
    assert_eq!(s.status, TimerLifecycleStatus::Idle);
    assert!(records.is_empty());
}

#[test]
fn idle_preferences_are_clamped_and_ignored_while_active() {
    let mut t = TimerState::default();
    apply_idle_preferences(&mut t, 0, 500);
    assert_eq!(t.planned_minutes, 1);
    assert_eq!(t.rest_minutes, 120);
    apply_idle_preferences(&mut t, 1000, 7);
    assert_eq!(t.planned_minutes, 720);
    assert_eq!(t.rest_minutes, 7);
    start_timer_at(&mut t, 30, 5, at(0), local(0)).unwrap();
    apply_idle_preferences(&mut t, 40, 10);
    assert_eq!(t.planned_minutes, 30);
    assert_eq!(t.status, TimerLifecycleStatus::Running);
}

#[test]
fn closing_saves_the_active_session() {
    let mut t = TimerState::default();
    start_timer(&mut t, 30, 5).unwrap();
    let records = finish_before_exit(&mut t).unwrap();
    assert!(records.len() <= 1);
    assert_eq!(t.status, TimerLifecycleStatus::Idle);
}

#[test]
fn sub_second_runs_count_whole_seconds() {
    let mut t = TimerState::default();
    start_timer_at(&mut t, 25, 0, Timestamp { secs: BASE, nanos: 900_000_000 }, local(0)).unwrap();
    let (s, _) = snapshot_timer_at(&mut t, Timestamp { secs: BASE + 10, nanos: 800_000_000 }, local(10));
    assert_eq!(s.accumulated_focus_seconds, 9);
}

fn is_v4_uuid_text(s: &str) -> bool {
    let chars: Vec<char> = s.chars().collect();
    chars.len() == 36
        && chars.iter().enumerate().all(|(i, c)| {
            if i == 8 || i == 13 || i == 18 || i == 23 {
                *c == '-'
            } else {
                c.is_ascii_digit() || ('a'..='f').contains(c)
            }
        })
        && chars[14] == '4'
        && "89ab".contains(chars[19])
}

#[test]
fn session_and_record_ids_are_random_uuid_texts() {
    let mut t = TimerState::default();
    start_timer_at(&mut t, 1, 0, at(0), local(0)).unwrap();
    let session_id = t.session_id.clone().unwrap();
    assert!(is_v4_uuid_text(&session_id));
    let (_, records) = cancel_timer_at(&mut t, at(30), local(30)).unwrap();
    assert_eq!(records.len(), 1);
    assert!(is_v4_uuid_text(&records[0].id));
    assert_ne!(records[0].id, session_id);
}

#[test]
fn a_report_of_a_stopped_timer_changes_nothing_even_if_ill_formed() {
    let mut t = TimerState::default();
    t.status = TimerLifecycleStatus::Paused;
    t.accumulated_focus_seconds = 99_999;
    assert!(t.can_report());
    assert!(!t.is_well_formed());
    let before = t.clone();
    let (s, records) = snapshot_timer_at(&mut t, at(10), local(10));
    assert!(records.is_empty());
    assert_eq!(s.status, TimerLifecycleStatus::Paused);
    assert!(s.target_end_at.is_none());
    assert_eq!(t.accumulated_focus_seconds, before.accumulated_focus_seconds);
    assert_eq!(t.status, before.status);
}

#[test]
fn focus_past_its_plan_without_rest_completes_with_the_full_focus() {
    let mut t = TimerState::default();
    start_timer_at(&mut t, 25, 0, at(0), local(0)).unwrap();
    // More focus recorded than planned: the report still completes it.
    t.accumulated_focus_seconds = 2000;
    assert!(t.can_report());
    let (s, records) = snapshot_timer_at(&mut t, at(10), local(10));
    assert_eq!(s.status, TimerLifecycleStatus::Completed);
    assert_eq!(s.remaining_seconds, 0);
    assert_eq!(t.accumulated_focus_seconds, 1500);
    assert!(t.running_started_at.is_none());
    assert_eq!(records.len(), 1);
    assert_eq!(records[0].time_type, SessionTimeType::Focus);
    assert_eq!(records[0].actual_seconds, 1500);
    assert_eq!(records[0].status, SessionRecordStatus::Completed);
}

#[test]
fn a_running_focus_with_rest_and_more_focus_than_planned_cannot_report() {
    let mut t = TimerState::default();
    start_timer_at(&mut t, 25, 5, at(0), local(0)).unwrap();
    assert!(t.can_report());
    t.accumulated_focus_seconds = 1501;
    assert!(!t.can_report());
}
