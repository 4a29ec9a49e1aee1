//! Properties that span operations: what the timer keeps, what a session's
//! records hold, what counts toward progress, and how a sync run proceeds.

use vstd::prelude::*;
use crate::domain::{
    RecordShape, SessionRecord, SessionRecordStatus, SessionTimeType, TimerLifecycleStatus,
    TimerPhase, TimerView, advance_model, complete_model, pause_model, phase_time_type,
    records_model, reset_model, resume_model, save_model, save_records, snapshot_model,
    stop_model, tick_model, cancel_model, has_time, begin_model,
};
use crate::git_sync::{
    HelperArgument, SyncOutcome, SyncQueue, SyncRequest, SYNC_HELPER_ARG, SYNC_JSONL_PATHSPEC,
    enqueue_model, helper_args_spec, request_parts, take_model,
};
use crate::overlay::base64;
use crate::stats::{
    DailyProgress, completed_on, goal_minutes_of, is_streak, met_goal, nth_counted_day, period_day,
    progress_fits, progress_model, reset_minutes_of, streak_fits,
};
use crate::storage::{Settings, loaded_settings_spec, round_goal_spec};
use crate::sync_run::{
    ActionView, GitRunView, ResponseView, StageView, joined_args, next_stage, outcome, stage_action,
};
use crate::git_sync::output_suffix;
use crate::text::trimmed;
use crate::git_sync::lossy_utf8;
use crate::time::{LocalTime, Timestamp, whole_seconds_between};

verus! {

/// The smaller of two numbers.
pub open spec fn least(a: int, b: int) -> int {
    if a <= b {
        a
    } else {
        b
    }
}

/// Whole seconds the timer has been running at `now` in its current run;
/// zero when no run is going on.
pub open spec fn current_run(v: TimerView, now: Timestamp) -> int {
    match v.running_started_at {
        Some(start) => whole_seconds_between(start, now),
        None => 0,
    }
}

/// Seconds of focus the session plans.
pub open spec fn focus_plan(v: TimerView) -> int {
    v.planned_minutes * 60
}

/// Seconds of rest the session plans.
pub open spec fn rest_plan(v: TimerView) -> int {
    v.rest_minutes * 60
}

/// Focus done at `now`: the stored focus plus the current run while in
/// focus, at most the plan; the whole plan once in rest.
pub open spec fn focus_done(v: TimerView, now: Timestamp) -> int {
    match v.phase {
        TimerPhase::Focus => least(v.accumulated_focus_seconds + current_run(v, now), focus_plan(v)),
        TimerPhase::Rest => focus_plan(v),
    }
}

/// Rest done at `now`: the stored rest, plus the current run while in rest,
/// at most the plan.
pub open spec fn rest_done(v: TimerView, now: Timestamp) -> int {
    match v.phase {
        TimerPhase::Focus => least(v.accumulated_rest_seconds as int, rest_plan(v)),
        TimerPhase::Rest => least(v.accumulated_rest_seconds + current_run(v, now), rest_plan(v)),
    }
}

/// Length of the current phase.
pub open spec fn phase_plan(v: TimerView) -> int {
    match v.phase {
        TimerPhase::Focus => focus_plan(v),
        TimerPhase::Rest => rest_plan(v),
    }
}

/// Time done in the current phase.
pub open spec fn phase_done(v: TimerView, now: Timestamp) -> int {
    match v.phase {
        TimerPhase::Focus => focus_done(v, now),
        TimerPhase::Rest => rest_done(v, now),
    }
}

proof fn lemma_run_nonneg(v: TimerView, now: Timestamp)
    ensures
        current_run(v, now) >= 0,
        current_run(v, now) == v.run_seconds(now),
{
}

/// A report counts the current phase down while the timer runs: it shows
/// the focus and rest done so far, the current run included, and the phase
/// length minus the time done in it as remaining; a running timer ends its
/// phase that many seconds after `now`.
pub proof fn law_report_counts_down(v: TimerView, now: Timestamp)
    ensures
        ({
            let s = snapshot_model(v, now);
            &&& s.accumulated_focus_seconds == focus_done(v, now)
            &&& s.accumulated_rest_seconds == rest_done(v, now)
            &&& s.phase_total_seconds == phase_plan(v)
            &&& s.remaining_seconds == phase_plan(v) - phase_done(v, now)
            &&& (v.status == TimerLifecycleStatus::Running ==> s.target_end_at == Some(
                Timestamp { secs: (now.secs + s.remaining_seconds) as i64, nanos: now.nanos },
            ))
        }),
{
    lemma_run_nonneg(v, now);
}

/// The longer a timer runs, the less remains: between two reports of the
/// same run the remaining time drops by the seconds run in between, down to
/// zero.
pub proof fn law_countdown_moves(v: TimerView, t1: Timestamp, t2: Timestamp)
    requires
        v.running_started_at is Some,
        v.running_started_at->0.nanos == t1.nanos,
        t1.nanos == t2.nanos,
        v.running_started_at->0.secs <= t1.secs <= t2.secs,
    ensures
        snapshot_model(v, t2).remaining_seconds == if snapshot_model(v, t1).remaining_seconds > t2.secs
            - t1.secs {
            snapshot_model(v, t1).remaining_seconds - (t2.secs - t1.secs)
        } else {
            0
        },
{
    lemma_run_nonneg(v, t1);
    lemma_run_nonneg(v, t2);
    let st = v.running_started_at->0;
    assert(whole_seconds_between(st, t1) == t1.secs - st.secs) by (nonlinear_arith)
        requires
            st.nanos == t1.nanos,
            st.secs <= t1.secs,
    {
        let d = (t1.secs - st.secs) * 1_000_000_000;
        if d > 0 {
            assert(d / 1_000_000_000 == t1.secs - st.secs);
        }
    }
    assert(whole_seconds_between(st, t2) == t2.secs - st.secs) by (nonlinear_arith)
        requires
            st.nanos == t2.nanos,
            st.secs <= t2.secs,
    {
        let d = (t2.secs - st.secs) * 1_000_000_000;
        if d > 0 {
            assert(d / 1_000_000_000 == t2.secs - st.secs);
        }
    }
}

/// Pausing a running timer keeps the time done in its current phase,
/// whichever phase, the current run included (at most the plan), and leaves
/// the other phase's time as it was; its report shows what the running
/// timer's report showed at that instant, at any later time.
pub proof fn law_pause_keeps_time_done(v: TimerView, now: Timestamp, local: LocalTime, later: Timestamp)
    requires
        v.status == TimerLifecycleStatus::Running,
    ensures
        ({
            let p = pause_model(v, now, local);
            &&& p.phase == v.phase
            &&& p.phase == TimerPhase::Focus ==> p.accumulated_focus_seconds == focus_done(v, now)
                && p.accumulated_rest_seconds == v.accumulated_rest_seconds
            &&& p.phase == TimerPhase::Rest ==> p.accumulated_rest_seconds == rest_done(v, now)
                && p.accumulated_focus_seconds == v.accumulated_focus_seconds
            &&& snapshot_model(p, later).remaining_seconds == snapshot_model(v, now).remaining_seconds
            &&& snapshot_model(p, later).accumulated_focus_seconds == snapshot_model(
                v,
                now,
            ).accumulated_focus_seconds
            &&& snapshot_model(p, later).accumulated_rest_seconds == snapshot_model(
                v,
                now,
            ).accumulated_rest_seconds
        }),
{
    lemma_run_nonneg(v, now);
}

/// Cancelling an active session keeps the time done in its current phase,
/// the current run included (at most the plan), and leaves the other
/// phase's time as it was; its report shows what the active session's
/// report showed at that instant.
pub proof fn law_cancel_keeps_time_done(v: TimerView, now: Timestamp, local: LocalTime, later: Timestamp)
    requires
        v.status == TimerLifecycleStatus::Running || v.status == TimerLifecycleStatus::Paused,
    ensures
        ({
            let c = cancel_model(v, now, local);
            &&& c.status == TimerLifecycleStatus::Cancelled
            &&& c.phase == v.phase
            &&& c.phase == TimerPhase::Focus ==> c.accumulated_focus_seconds == focus_done(v, now)
                && c.accumulated_rest_seconds == v.accumulated_rest_seconds
            &&& c.phase == TimerPhase::Rest ==> c.accumulated_rest_seconds == rest_done(v, now)
                && c.accumulated_focus_seconds == v.accumulated_focus_seconds
            &&& snapshot_model(c, later).remaining_seconds == snapshot_model(v, now).remaining_seconds
            &&& snapshot_model(c, later).accumulated_focus_seconds == snapshot_model(
                v,
                now,
            ).accumulated_focus_seconds
            &&& snapshot_model(c, later).accumulated_rest_seconds == snapshot_model(
                v,
                now,
            ).accumulated_rest_seconds
        }),
{
    lemma_run_nonneg(v, now);
}

/// Each record of a session carries the time done in its phase, the
/// current run included (at most the plan): a focus record the focus done,
/// a rest record the rest done. There is a focus record when focus was
/// done and a rest record when rest was done; with no time done at all
/// there is one empty record of the current phase.
pub proof fn law_records_hold_time_done(v: TimerView, status: SessionRecordStatus, now: Timestamp)
    requires
        records_model(v, status, now) is Ok,
    ensures
        ({
            let rs = records_model(v, status, now)->Ok_0;
            &&& forall|i: int|
                0 <= i < rs.len() ==> ((#[trigger] rs[i]).time_type == SessionTimeType::Focus
                    ==> rs[i].actual_seconds == focus_done(v, now)) && (rs[i].time_type
                    == SessionTimeType::Rest ==> rs[i].actual_seconds == rest_done(v, now))
            &&& (focus_done(v, now) > 0 ==> exists|i: int|
                0 <= i < rs.len() && (#[trigger] rs[i]).time_type == SessionTimeType::Focus)
            &&& (rest_done(v, now) > 0 ==> exists|i: int|
                0 <= i < rs.len() && (#[trigger] rs[i]).time_type == SessionTimeType::Rest)
            &&& (focus_done(v, now) == 0 && rest_done(v, now) == 0 ==> rs.len() == 1
                && rs[0].actual_seconds == 0)
        }),
{
    lemma_run_nonneg(v, now);
    let rs = records_model(v, status, now)->Ok_0;
    if focus_done(v, now) > 0 {
        assert(rs[0].time_type == SessionTimeType::Focus);
    }
    if rest_done(v, now) > 0 {
        assert(rs[rs.len() - 1].time_type == SessionTimeType::Rest);
    }
}

/// Saving an active session yields records with the time its report shows
/// at that instant: the focus record the focus done, the rest record the
/// rest done.
pub proof fn law_saved_records_match_report(v: TimerView, now: Timestamp, local: LocalTime)
    requires
        v.status == TimerLifecycleStatus::Running || v.status == TimerLifecycleStatus::Paused,
        v.session_id is Some,
        v.started_at is Some,
    ensures
        save_records(v, now, local) is Ok,
        ({
            let rs = save_records(v, now, local)->Ok_0;
            let s = snapshot_model(v, now);
            forall|i: int|
                0 <= i < rs.len() ==> ((#[trigger] rs[i]).time_type == SessionTimeType::Focus
                    ==> rs[i].actual_seconds == s.accumulated_focus_seconds) && (rs[i].time_type
                    == SessionTimeType::Rest ==> rs[i].actual_seconds == s.accumulated_rest_seconds)
        }),
{
    lemma_run_nonneg(v, now);
    law_save_returns_to_idle(v, now, local);
    let st = stop_model(v, now, local, v.status);
    lemma_run_nonneg(st, now);
    if has_time(st, now) {
        law_records_hold_time_done(st, SessionRecordStatus::Completed, now);
    }
}

/// Cancelling an active session yields records with the time its report
/// shows at that instant.
pub proof fn law_cancelled_records_match_report(v: TimerView, now: Timestamp, local: LocalTime)
    requires
        v.status == TimerLifecycleStatus::Running || v.status == TimerLifecycleStatus::Paused,
        v.session_id is Some,
        v.started_at is Some,
    ensures
        records_model(cancel_model(v, now, local), SessionRecordStatus::Cancelled, now) is Ok,
        ({
            let rs = records_model(cancel_model(v, now, local), SessionRecordStatus::Cancelled, now)->Ok_0;
            let s = snapshot_model(v, now);
            forall|i: int|
                0 <= i < rs.len() ==> ((#[trigger] rs[i]).time_type == SessionTimeType::Focus
                    ==> rs[i].actual_seconds == s.accumulated_focus_seconds) && (rs[i].time_type
                    == SessionTimeType::Rest ==> rs[i].actual_seconds == s.accumulated_rest_seconds)
        }),
{
    lemma_run_nonneg(v, now);
    let c = cancel_model(v, now, local);
    lemma_run_nonneg(c, now);
    law_records_hold_time_done(c, SessionRecordStatus::Cancelled, now);
}

/// A session started at `now` runs its focus phase from `now`: its report
/// then shows the whole focus plan remaining, nothing done, and the phase
/// ending a plan's length after `now`.
pub proof fn law_start_reports_full_focus(
    planned_minutes: u32,
    rest_minutes: u32,
    session_id: Seq<char>,
    now: Timestamp,
    local: LocalTime,
)
    ensures
        ({
            let v = begin_model(planned_minutes, rest_minutes, session_id, now, local);
            let s = snapshot_model(v, now);
            &&& v.status == TimerLifecycleStatus::Running
            &&& v.running_started_at == Some(now)
            &&& v.started_at == Some(local)
            &&& s.phase == TimerPhase::Focus
            &&& s.accumulated_focus_seconds == 0
            &&& s.accumulated_rest_seconds == 0
            &&& s.remaining_seconds == planned_minutes * 60
            &&& s.target_end_at == Some(Timestamp { secs: (now.secs + planned_minutes * 60) as i64, nanos: now.nanos })
        }),
{
    assert(whole_seconds_between(now, now) == 0);
}

/// When focus runs out and rest is planned, a report hands over to rest
/// with the whole focus done, and the rest already counts the seconds that
/// ran past the end of focus.
pub proof fn law_handover_keeps_overrun(v: TimerView, now: Timestamp, local: LocalTime)
    requires
        v.status == TimerLifecycleStatus::Running,
        v.phase == TimerPhase::Focus,
        rest_plan(v) > 0,
        focus_plan(v) <= v.accumulated_focus_seconds + current_run(v, now) < focus_plan(v) + rest_plan(v),
        v.handover_fits(now),
        now.nanos < 1_000_000_000,
    ensures
        ({
            let t = tick_model(v, now, local);
            let s = snapshot_model(t.0, now);
            &&& t.0.phase == TimerPhase::Rest
            &&& t.0.status == TimerLifecycleStatus::Running
            &&& t.1.len() == 0
            &&& s.accumulated_focus_seconds == focus_plan(v)
            &&& s.accumulated_rest_seconds == v.accumulated_focus_seconds + current_run(v, now) - focus_plan(v)
            &&& s.remaining_seconds == focus_plan(v) + rest_plan(v) - (v.accumulated_focus_seconds
                + current_run(v, now))
        }),
{
    lemma_run_nonneg(v, now);
    let over = v.elapsed_phase(now) - v.phase_total();
    let start = Timestamp { secs: (now.secs - over) as i64, nanos: now.nanos };
    assert(whole_seconds_between(start, now) == over) by (nonlinear_arith)
        requires
            start.nanos == now.nanos,
            start.secs == now.secs - over,
            over >= 0,
    {
        let d = over * 1_000_000_000;
        if d > 0 {
            assert(d / 1_000_000_000 == over);
        }
    }
}

/// A running rest phase whose time is up completes the session: the report
/// marks it completed with the whole rest done, and yields a focus record
/// with the whole focus plan and a rest record with the whole rest plan,
/// when both plans are more than nothing.
pub proof fn law_completes_after_rest(v: TimerView, now: Timestamp, local: LocalTime)
    requires
        v.status == TimerLifecycleStatus::Running,
        v.phase == TimerPhase::Rest,
        v.accumulated_rest_seconds + current_run(v, now) >= rest_plan(v),
        focus_plan(v) > 0,
        rest_plan(v) > 0,
        v.session_id is Some,
        v.started_at is Some,
    ensures
        ({
            let t = tick_model(v, now, local);
            &&& t.0.status == TimerLifecycleStatus::Completed
            &&& t.0.accumulated_rest_seconds == rest_plan(v)
            &&& t.0.ended_at == Some(local)
            &&& t.1.len() == 2
            &&& t.1[0].time_type == SessionTimeType::Focus
            &&& t.1[0].actual_seconds == focus_plan(v)
            &&& t.1[1].time_type == SessionTimeType::Rest
            &&& t.1[1].actual_seconds == rest_plan(v)
            &&& t.1[0].status == SessionRecordStatus::Completed
            &&& t.1[1].status == SessionRecordStatus::Completed
        }),
{
    lemma_run_nonneg(v, now);
    let c = complete_model(v, local);
    assert(c.elapsed_focus(now) == focus_plan(v));
    assert(c.elapsed_rest(now) == rest_plan(v));
}

/// Pausing a running session and resuming it later leaves it running again,
/// in the same phase and session, with the time done up to the pause kept
/// and the new run starting at the resume.
pub proof fn law_pause_then_resume(v: TimerView, paused_at: Timestamp, local: LocalTime, resumed_at: Timestamp)
    requires
        v.status == TimerLifecycleStatus::Running,
    ensures
        ({
            let p = pause_model(v, paused_at, local);
            let r = resume_model(p, resumed_at);
            &&& p.status == TimerLifecycleStatus::Paused
            &&& r.status == TimerLifecycleStatus::Running
            &&& r.phase == v.phase
            &&& r.session_id == v.session_id
            &&& r.planned_minutes == v.planned_minutes
            &&& r.rest_minutes == v.rest_minutes
            &&& r.accumulated_focus_seconds == p.accumulated_focus_seconds
            &&& r.accumulated_rest_seconds == p.accumulated_rest_seconds
            &&& r.running_started_at == Some(resumed_at)
            &&& r.paused_at is None
        }),
{
}

/// While paused, a session's time stands still: its report is the same at
/// any later time.
pub proof fn law_paused_time_stands_still(
    v: TimerView,
    paused_at: Timestamp,
    local: LocalTime,
    t1: Timestamp,
    t2: Timestamp,
)
    requires
        v.status == TimerLifecycleStatus::Running,
    ensures
        snapshot_model(pause_model(v, paused_at, local), t1) == snapshot_model(
            pause_model(v, paused_at, local),
            t2,
        ),
{
}

/// A report never shows more time than planned: the remaining time and the
/// time done add up to the phase length, and the focus and rest done stay
/// within their plans.
pub proof fn law_snapshot_within_plan(v: TimerView, now: Timestamp)
    ensures
        ({
            let s = snapshot_model(v, now);
            &&& 0 <= s.remaining_seconds <= s.phase_total_seconds
            &&& s.phase_total_seconds == v.phase_total()
            &&& 0 <= s.accumulated_focus_seconds <= v.focus_total()
            &&& 0 <= s.accumulated_rest_seconds <= v.rest_total()
            &&& (s.status == TimerLifecycleStatus::Running <==> s.target_end_at is Some)
        }),
{
}

/// The records of a finished session: one or two, the focus record first;
/// every one carries the session's id, start and end, the given status and
/// the plan of its own segment (the focus plan for focus, the rest plan for
/// rest); at most one per kind; and none holds more time than its
/// phase planned.
pub proof fn law_session_records(v: TimerView, status: SessionRecordStatus, now: Timestamp)
    requires
        v.session_id is Some,
        v.started_at is Some,
        v.ended_at is Some,
    ensures
        records_model(v, status, now) is Ok,
        ({
            let rs = records_model(v, status, now)->Ok_0;
            &&& 1 <= rs.len() <= 2
            &&& forall|i: int|
                0 <= i < rs.len() ==> {
                    &&& (#[trigger] rs[i]).session_id == v.session_id->0
                    &&& rs[i].status == status
                    &&& (rs[i].time_type == SessionTimeType::Focus ==> rs[i].planned_minutes
                        == v.planned_minutes)
                    &&& (rs[i].time_type == SessionTimeType::Rest ==> rs[i].planned_minutes
                        == v.rest_minutes)
                    &&& rs[i].started_at == v.started_at->0
                    &&& rs[i].ended_at == v.ended_at->0
                    &&& (rs[i].time_type == SessionTimeType::Focus ==> rs[i].actual_seconds
                        <= v.focus_total())
                    &&& (rs[i].time_type == SessionTimeType::Rest ==> rs[i].actual_seconds
                        <= v.rest_total())
                }
            &&& (rs.len() == 2 ==> rs[0].time_type == SessionTimeType::Focus && rs[1].time_type
                == SessionTimeType::Rest)
        }),
{
}

/// A session's records can be built exactly when the session has an id, a
/// start and an end.
pub proof fn law_records_need_session(v: TimerView, status: SessionRecordStatus, now: Timestamp)
    ensures
        records_model(v, status, now) is Ok <==> (v.session_id is Some && v.started_at is Some
            && v.ended_at is Some),
{
}

/// Saving an active session that has an id and a start returns the timer to
/// idle with the same plan, and its records are marked completed.
pub proof fn law_save_returns_to_idle(v: TimerView, now: Timestamp, local: LocalTime)
    requires
        v.status == TimerLifecycleStatus::Running || v.status == TimerLifecycleStatus::Paused,
        v.session_id is Some,
        v.started_at is Some,
    ensures
        save_model(v, now, local) == reset_model(v, v.planned_minutes, v.rest_minutes),
        save_records(v, now, local) is Ok,
        forall|i: int|
            0 <= i < save_records(v, now, local)->Ok_0.len() ==> (#[trigger] save_records(
                v,
                now,
                local,
            )->Ok_0[i]).status == SessionRecordStatus::Completed,
{
    let s = stop_model(v, now, local, v.status);
    law_session_records(s, SessionRecordStatus::Completed, now);
}

/// A report leaves a timer that is not running as it is, yields no record,
/// and shows no end time.
pub proof fn law_report_of_stopped_timer_changes_nothing(v: TimerView, now: Timestamp, local: LocalTime)
    requires
        v.status != TimerLifecycleStatus::Running,
    ensures
        tick_model(v, now, local) == (v, Seq::<RecordShape>::empty()),
        snapshot_model(v, now).status == v.status,
        snapshot_model(v, now).target_end_at is None,
{
}

/// A running session whose current phase still has time left is left as it
/// is by a report, and yields no record.
pub proof fn law_running_unchanged_before_end(v: TimerView, now: Timestamp, local: LocalTime)
    requires
        v.status == TimerLifecycleStatus::Running,
        v.elapsed_phase(now) < v.phase_total(),
    ensures
        tick_model(v, now, local) == (v, Seq::<RecordShape>::empty()),
{
}

/// A running session without rest whose focus time is up completes: the
/// report marks it completed with its full focus done and nothing left, and
/// yields its focus record.
pub proof fn law_completes_when_time_is_up(v: TimerView, now: Timestamp, local: LocalTime)
    requires
        v.status == TimerLifecycleStatus::Running,
        v.phase == TimerPhase::Focus,
        v.rest_total() == 0,
        v.elapsed_phase(now) >= v.focus_total(),
        v.session_id is Some,
        v.started_at is Some,
    ensures
        tick_model(v, now, local).0.status == TimerLifecycleStatus::Completed,
        tick_model(v, now, local).0.accumulated_focus_seconds == v.focus_total(),
        tick_model(v, now, local).0.ended_at == Some(local),
        tick_model(v, now, local).0.running_started_at is None,
        snapshot_model(tick_model(v, now, local).0, now).remaining_seconds == 0,
        tick_model(v, now, local).1 == seq![
            RecordShape {
                session_id: v.session_id->0,
                time_type: SessionTimeType::Focus,
                status: SessionRecordStatus::Completed,
                planned_minutes: v.planned_minutes,
                actual_seconds: v.focus_total() as u64,
                started_at: v.started_at->0,
                ended_at: local,
            },
        ],
{
    let c = complete_model(v, local);
    assert(c.elapsed_focus(now) == v.focus_total());
    assert(c.elapsed_rest(now) == 0);
}

/// Cancelled records never count toward progress.
pub proof fn law_cancelled_not_counted(
    records: Seq<SessionRecord>,
    r: SessionRecord,
    t: SessionTimeType,
    reset: int,
    day: int,
)
    requires
        r.status == SessionRecordStatus::Cancelled,
    ensures
        completed_on(records.push(r), t, reset, day) == completed_on(records, t, reset, day),
{
    assert(records.push(r).drop_last() =~= records);
}

/// Rest records never count toward the focus goal, and focus records never
/// toward rest time.
pub proof fn law_other_kind_not_counted(
    records: Seq<SessionRecord>,
    r: SessionRecord,
    t: SessionTimeType,
    reset: int,
    day: int,
)
    requires
        r.time_type != t,
    ensures
        completed_on(records.push(r), t, reset, day) == completed_on(records, t, reset, day),
{
    assert(records.push(r).drop_last() =~= records);
}

/// A completed record adds its time to the day on which its reporting period
/// ends, and to that day only.
pub proof fn law_completed_record_counted(
    records: Seq<SessionRecord>,
    r: SessionRecord,
    reset: int,
    day: int,
)
    requires
        r.status == SessionRecordStatus::Completed,
    ensures
        completed_on(records.push(r), r.time_type, reset, day) == completed_on(
            records,
            r.time_type,
            reset,
            day,
        ) + if period_day(r.ended_at, reset) == day {
            r.actual_seconds as int
        } else {
            0
        },
{
    assert(records.push(r).drop_last() =~= records);
}

/// A list of records has one streak going back from a day.
proof fn lemma_streak_unique(
    records: Seq<SessionRecord>,
    reset: int,
    goal: int,
    include_weekends: bool,
    start: int,
    k1: nat,
    k2: nat,
)
    requires
        is_streak(records, reset, goal, include_weekends, start, k1),
        is_streak(records, reset, goal, include_weekends, start, k2),
    ensures
        k1 == k2,
{
    if k1 < k2 {
        assert(met_goal(records, reset, goal, nth_counted_day(start, k1, include_weekends)));
    } else if k2 < k1 {
        assert(met_goal(records, reset, goal, nth_counted_day(start, k2, include_weekends)));
    }
}

/// Two record lists with the same completed focus on every day have the
/// same streaks.
proof fn lemma_same_focus_same_streak(
    a: Seq<SessionRecord>,
    b: Seq<SessionRecord>,
    reset: int,
    goal: int,
    include_weekends: bool,
    start: int,
    k: nat,
)
    requires
        forall|day: int|
            #[trigger] completed_on(a, SessionTimeType::Focus, reset, day) == completed_on(
                b,
                SessionTimeType::Focus,
                reset,
                day,
            ),
        is_streak(a, reset, goal, include_weekends, start, k),
    ensures
        is_streak(b, reset, goal, include_weekends, start, k),
{
    assert forall|j: nat| j < k implies met_goal(b, reset, goal, #[trigger] nth_counted_day(start, j, include_weekends)) by {
        assert(met_goal(a, reset, goal, nth_counted_day(start, j, include_weekends)));
    }
    assert(!met_goal(a, reset, goal, nth_counted_day(start, k, include_weekends)));
}

/// Two record lists with the same completed focus on every day have the
/// same streak bound.
proof fn lemma_same_focus_same_streak_fit(
    a: Seq<SessionRecord>,
    b: Seq<SessionRecord>,
    reset: int,
    goal: int,
    include_weekends: bool,
    start: int,
)
    requires
        forall|day: int|
            #[trigger] completed_on(a, SessionTimeType::Focus, reset, day) == completed_on(
                b,
                SessionTimeType::Focus,
                reset,
                day,
            ),
        streak_fits(a, reset, goal, include_weekends, start),
    ensures
        streak_fits(b, reset, goal, include_weekends, start),
{
    let k = choose|k: nat|
        k <= u32::MAX && !met_goal(a, reset, goal, #[trigger] nth_counted_day(start, k, include_weekends));
    assert(!met_goal(b, reset, goal, nth_counted_day(start, k, include_weekends)));
}

/// A cancelled record never changes whether the records can be summarised:
/// the report of the longer list can be asked for exactly when that of the
/// shorter one can.
pub proof fn law_cancelled_record_keeps_fit(
    records: Seq<SessionRecord>,
    r: SessionRecord,
    settings: Settings,
    now: LocalTime,
)
    requires
        r.status == SessionRecordStatus::Cancelled,
    ensures
        progress_fits(records.push(r), settings, now) == progress_fits(records, settings, now),
{
    let reset = reset_minutes_of(settings);
    let goal = goal_minutes_of(settings) * 60;
    let inc = settings.include_weekends_in_streak;
    let start = period_day(now, reset) - 1;
    assert forall|t: SessionTimeType, day: int|
        #![trigger completed_on(records.push(r), t, reset, day)]
        #![trigger completed_on(records, t, reset, day)]
        completed_on(records.push(r), t, reset, day) == completed_on(records, t, reset, day) by {
        law_cancelled_not_counted(records, r, t, reset, day);
    }
    if streak_fits(records, reset, goal, inc, start) {
        lemma_same_focus_same_streak_fit(records, records.push(r), reset, goal, inc, start);
    }
    if streak_fits(records.push(r), reset, goal, inc, start) {
        lemma_same_focus_same_streak_fit(records.push(r), records, reset, goal, inc, start);
    }
}

/// Adding a completed rest record keeps the records summarisable when the
/// rest of its reporting day still fits in `u64`.
pub proof fn law_rest_record_keeps_fit(
    records: Seq<SessionRecord>,
    r: SessionRecord,
    settings: Settings,
    now: LocalTime,
)
    requires
        r.status == SessionRecordStatus::Completed,
        r.time_type == SessionTimeType::Rest,
        progress_fits(records, settings, now),
        completed_on(
            records,
            SessionTimeType::Rest,
            reset_minutes_of(settings),
            period_day(r.ended_at, reset_minutes_of(settings)),
        ) + r.actual_seconds <= u64::MAX,
    ensures
        progress_fits(records.push(r), settings, now),
{
    let reset = reset_minutes_of(settings);
    let goal = goal_minutes_of(settings) * 60;
    let inc = settings.include_weekends_in_streak;
    let start = period_day(now, reset) - 1;
    assert forall|t: SessionTimeType, day: int| #[trigger] completed_on(records.push(r), t, reset, day) <= u64::MAX by {
        if t == SessionTimeType::Rest {
            law_completed_record_counted(records, r, reset, day);
        } else {
            law_other_kind_not_counted(records, r, t, reset, day);
        }
        assert(completed_on(records, t, reset, day) <= u64::MAX);
    }
    assert forall|day: int|
        #[trigger] completed_on(records, SessionTimeType::Focus, reset, day) == completed_on(
            records.push(r),
            SessionTimeType::Focus,
            reset,
            day,
        ) by {
        law_other_kind_not_counted(records, r, SessionTimeType::Focus, reset, day);
    }
    lemma_same_focus_same_streak_fit(records, records.push(r), reset, goal, inc, start);
}

/// A cancelled record changes nothing in the progress report: not the goal,
/// today's or yesterday's focus, the remaining time, today's rest or the
/// streak.
pub proof fn law_cancelled_record_changes_no_report(
    records: Seq<SessionRecord>,
    r: SessionRecord,
    settings: Settings,
    now: LocalTime,
    p: DailyProgress,
    q: DailyProgress,
)
    requires
        r.status == SessionRecordStatus::Cancelled,
        progress_model(records, settings, now, p),
        progress_model(records.push(r), settings, now, q),
    ensures
        q == p,
{
    let reset = reset_minutes_of(settings);
    let goal = goal_minutes_of(settings) * 60;
    let inc = settings.include_weekends_in_streak;
    let start = period_day(now, reset) - 1;
    assert forall|t: SessionTimeType, day: int|
        #[trigger] completed_on(records.push(r), t, reset, day) == completed_on(records, t, reset, day) by {
        law_cancelled_not_counted(records, r, t, reset, day);
    }
    lemma_same_focus_same_streak(records.push(r), records, reset, goal, inc, start, q.streak_days as nat);
    lemma_streak_unique(records, reset, goal, inc, start, p.streak_days as nat, q.streak_days as nat);
}

/// A completed rest record adds its seconds to today's rest when it ends in
/// today's reporting period, and changes nothing else in the progress
/// report: not the goal, today's or yesterday's focus, the remaining time
/// or the streak.
pub proof fn law_rest_record_changes_only_rest(
    records: Seq<SessionRecord>,
    r: SessionRecord,
    settings: Settings,
    now: LocalTime,
    p: DailyProgress,
    q: DailyProgress,
)
    requires
        r.status == SessionRecordStatus::Completed,
        r.time_type == SessionTimeType::Rest,
        progress_model(records, settings, now, p),
        progress_model(records.push(r), settings, now, q),
    ensures
        q.daily_goal_minutes == p.daily_goal_minutes,
        q.yesterday_completed_seconds == p.yesterday_completed_seconds,
        q.today_completed_seconds == p.today_completed_seconds,
        q.today_remaining_seconds == p.today_remaining_seconds,
        q.streak_days == p.streak_days,
        q.today_rest_seconds == p.today_rest_seconds + if period_day(r.ended_at, reset_minutes_of(settings))
            == period_day(now, reset_minutes_of(settings)) {
            r.actual_seconds as int
        } else {
            0
        },
{
    let reset = reset_minutes_of(settings);
    let goal = goal_minutes_of(settings) * 60;
    let inc = settings.include_weekends_in_streak;
    let start = period_day(now, reset) - 1;
    assert forall|day: int|
        #[trigger] completed_on(records.push(r), SessionTimeType::Focus, reset, day) == completed_on(
            records,
            SessionTimeType::Focus,
            reset,
            day,
        ) by {
        law_other_kind_not_counted(records, r, SessionTimeType::Focus, reset, day);
    }
    law_completed_record_counted(records, r, reset, period_day(now, reset));
    lemma_same_focus_same_streak(records.push(r), records, reset, goal, inc, start, q.streak_days as nat);
    lemma_streak_unique(records, reset, goal, inc, start, p.streak_days as nat, q.streak_days as nat);
}

/// The reporting day is the calendar day, or the day before for times before
/// the reset time; with a reset at midnight it is always the calendar day.
pub proof fn law_reporting_day(t: LocalTime, reset: int)
    requires
        0 <= reset,
    ensures
        period_day(t, reset) == t.local_day() || period_day(t, reset) == t.local_day() - 1,
        reset == 0 ==> period_day(t, reset) == t.local_day(),
{
    assert(t.local_seconds() % 86400 >= 0);
}

/// A rounded goal is a whole number of hours from one to twelve, and
/// rounding it again changes nothing.
pub proof fn law_goal_rounding(minutes: int)
    requires
        minutes >= 0,
    ensures
        60 <= round_goal_spec(minutes) <= 720,
        round_goal_spec(minutes) % 60 == 0,
        round_goal_spec(round_goal_spec(minutes)) == round_goal_spec(minutes),
{
    let h = crate::storage::clamp_spec((minutes + 30) / 60, 1, 12);
    assert(round_goal_spec(minutes) == h * 60);
    assert((h * 60 + 30) / 60 == h);
}

/// Normalising settings read from disk a second time changes nothing.
pub proof fn law_settings_normalised_once(s: Settings)
    ensures
        loaded_settings_spec(loaded_settings_spec(s)) == loaded_settings_spec(s),
{
    let once = loaded_settings_spec(s);
    law_goal_rounding(s.daily_goal_minutes as int);
    law_goal_rounding(once.daily_goal_minutes as int);
    let h = crate::storage::clamp_spec((s.daily_goal_minutes + 30) / 60, 1, 12);
    assert((h * 60 + 30) / 60 == h);
}

/// Of the requests queued while a worker is busy, the worker takes the
/// latest; once it has taken it and finds nothing more, it stops.
pub proof fn law_latest_request_wins(q: SyncQueue, first: SyncRequest, second: SyncRequest)
    ensures
        ({
            let q2 = enqueue_model(enqueue_model(q, first), second);
            let (q3, taken) = take_model(q2);
            let (q4, none) = take_model(q3);
            &&& q2.running
            &&& taken == Some(second)
            &&& none is None
            &&& !q4.running
        }),
{
}

/// The helper reads back exactly the request it was started with.
pub proof fn law_helper_arguments_round_trip(args: Seq<HelperArgument>, request: SyncRequest)
    requires
        args.len() == 6,
        forall|i: int| 1 <= i < 6 ==> (#[trigger] args[i]).unicode,
        args[1].text@ == SYNC_HELPER_ARG@,
        args[2].text@ == request.sessions_dir@,
        args[3].text@ == request.repo_path@,
        args[4].text@ == request.log_path@,
        args[5].text@ == request.commit_body@,
    ensures
        helper_args_spec(args) == Ok::<_, Seq<char>>(Some(request_parts(request))),
{
    assert(args[1].unicode && args[5].unicode);
}

/// Every sync run writes its result to the sync log before it ends: no step
/// of a sync run goes to the end without passing through the logging step,
/// and that step logs the result.
pub proof fn law_sync_result_logged(
    req: SyncRequest,
    windows: bool,
    stage: StageView,
    resp: ResponseView,
)
    requires
        !(stage is LoggingResult),
        !(stage is Finished),
        !(stage is RepositoryValid),
    ensures
        !(next_stage(req, windows, false, stage, resp) is Finished),
        !(next_stage(req, windows, false, stage, resp) is RepositoryValid),
{
}

/// After staging, a run commits exactly when the record folder has staged
/// changes, and otherwise ends with nothing to push.
pub proof fn law_commit_only_when_staged(
    req: SyncRequest,
    windows: bool,
    remote: Seq<char>,
    branch: Seq<char>,
    stdout: Seq<u8>,
    stderr: Seq<u8>,
)
    ensures
        next_stage(
            req,
            windows,
            false,
            StageView::CheckingStagedAfterAdd { remote, branch },
            ResponseView::Git(GitRunView::Finished { exit_code: Some(1i32), stdout, stderr }),
        ) == (StageView::Committing { remote, branch }),
        next_stage(
            req,
            windows,
            false,
            StageView::CheckingStagedAfterAdd { remote, branch },
            ResponseView::Git(GitRunView::Finished { exit_code: Some(0i32), stdout, stderr }),
        ) == outcome(SyncOutcome::NoChanges),
{
}

/// A Git command ran and ended with another code than 0, or did not start.
pub open spec fn git_failed(resp: ResponseView) -> bool {
    match resp {
        ResponseView::Git(GitRunView::StartFailed(_)) => true,
        ResponseView::Git(GitRunView::Finished { exit_code, .. }) => exit_code != Some(0i32),
        _ => false,
    }
}

/// A step whose Git command must succeed.
pub open spec fn must_succeed_step(stage: StageView) -> bool {
    stage is ReadingTopLevel || stage is ReadingRemotes || stage is CheckingRemoteUrl
        || stage is ReadingBranch || stage is CheckingUntracked || stage is Adding || stage is Committing
        || stage is Pushing
}

/// A step that runs a quiet `git diff`.
pub open spec fn diff_step(stage: StageView) -> bool {
    stage is CheckingUnstaged || stage is CheckingStaged || stage is CheckingStagedAfterAdd
}

/// A Git command that ran and exited with code 1.
pub open spec fn exited_with_one(resp: ResponseView) -> bool {
    match resp {
        ResponseView::Git(GitRunView::Finished { exit_code, .. }) => exit_code == Some(1i32),
        _ => false,
    }
}

/// A sync run reports that it pushed only right after a push that exited
/// with code 0.
pub proof fn law_pushed_only_after_successful_push(
    req: SyncRequest,
    windows: bool,
    validate_only: bool,
    stage: StageView,
    resp: ResponseView,
)
    ensures
        next_stage(req, windows, validate_only, stage, resp) == outcome(SyncOutcome::Pushed) ==> {
            &&& stage is Pushing
            &&& resp is Git
            &&& !git_failed(resp)
        },
{
}

/// In a sync run, a Git command that must succeed (reading the repository
/// root, the remotes, the remote's URL or the branch, listing untracked
/// records, staging, committing, pushing) and fails ends the run as a
/// failure that is logged; a quiet `git diff` fails the run on any code but
/// 0 and 1.
pub proof fn law_failed_git_step_fails_run(req: SyncRequest, windows: bool, stage: StageView, resp: ResponseView)
    requires
        git_failed(resp),
        must_succeed_step(stage) || (diff_step(stage) && !exited_with_one(resp)),
    ensures
        next_stage(req, windows, false, stage, resp) is LoggingResult,
        next_stage(req, windows, false, stage, resp)->LoggingResult_result is Err,
{
}

/// A push that fails ends the run with the command and Git's output in the
/// error: `Git command failed: git push <remote> HEAD:<branch>` and the
/// output suffix.
pub proof fn law_failed_push_message(
    req: SyncRequest,
    windows: bool,
    remote: Seq<char>,
    branch: Seq<char>,
    exit_code: Option<i32>,
    stdout: Seq<u8>,
    stderr: Seq<u8>,
)
    requires
        exit_code != Some(0i32),
    ensures
        next_stage(
            req,
            windows,
            false,
            StageView::Pushing { remote, branch },
            ResponseView::Git(GitRunView::Finished { exit_code, stdout, stderr }),
        ) == (StageView::LoggingResult {
            result: Err(
                "Git command failed: git "@ + ("push"@ + " "@ + remote + " "@ + ("HEAD:"@ + branch))
                    + output_suffix(stdout, stderr),
            ),
        }),
{
    let args = seq!["push"@, remote, "HEAD:"@ + branch];
    assert(args.drop_last().drop_last() =~= seq!["push"@]);
    assert(args.drop_last() =~= seq!["push"@, remote]);
    assert(joined_args(seq!["push"@]) == "push"@);
    assert(joined_args(args.drop_last()) == "push"@ + " "@ + remote);
    assert(joined_args(args) == "push"@ + " "@ + remote + " "@ + ("HEAD:"@ + branch));
}

/// A repository whose record folder has uncommitted, staged or untracked
/// changes is skipped: a quiet `git diff` (staged or not) that reports
/// changes, or a listing of untracked record files that is not blank, ends
/// the run as skipped, before anything is copied or committed.
pub proof fn law_dirty_repository_skipped(
    req: SyncRequest,
    windows: bool,
    remote: Seq<char>,
    branch: Seq<char>,
    stdout: Seq<u8>,
    stderr: Seq<u8>,
    listing: Seq<u8>,
)
    requires
        trimmed(lossy_utf8(listing)).len() > 0,
    ensures
        ({
            let dirty = ResponseView::Git(
                GitRunView::Finished { exit_code: Some(1i32), stdout, stderr },
            );
            let untracked = ResponseView::Git(
                GitRunView::Finished { exit_code: Some(0i32), stdout: listing, stderr },
            );
            &&& next_stage(req, windows, false, StageView::CheckingUnstaged { remote, branch }, dirty)
                == outcome(SyncOutcome::SkippedDirty)
            &&& next_stage(req, windows, false, StageView::CheckingStaged { remote, branch }, dirty)
                == outcome(SyncOutcome::SkippedDirty)
            &&& next_stage(req, windows, false, StageView::CheckingUntracked { remote, branch }, untracked)
                == outcome(SyncOutcome::SkippedDirty)
        }),
{
    crate::text::lemma_trimmed_idempotent(lossy_utf8(listing));
}

/// The only files a sync stages and commits are the record logs
/// `focustrail-records/sessions/*.jsonl`.
pub proof fn law_only_record_logs_committed(req: SyncRequest, remote: Seq<char>, branch: Seq<char>)
    ensures
        stage_action(req, StageView::Adding { remote, branch }) == ActionView::RunGit(
            seq!["add"@, "--"@, SYNC_JSONL_PATHSPEC@],
        ),
        ({
            let a = stage_action(req, StageView::Committing { remote, branch });
            &&& a is RunGit
            &&& a->RunGit_0.last() == SYNC_JSONL_PATHSPEC@
            &&& a->RunGit_0[a->RunGit_0.len() - 2] == "--"@
        }),
{
}

/// A validation run never copies, commits or logs: from any of its checks it
/// goes to another check, or ends.
pub proof fn law_validation_only_checks(req: SyncRequest, windows: bool, stage: StageView, resp: ResponseView)
    requires
        stage is CheckingExists || stage is CheckingDir || stage is ReadingTopLevel
            || stage is CanonicalizingSelected || stage is CanonicalizingTopLevel
            || stage is ReadingRemotes || stage is CheckingRemoteUrl || stage is ReadingBranch,
    ensures
        ({
            let n = next_stage(req, windows, true, stage, resp);
            n is CheckingExists || n is CheckingDir || n is ReadingTopLevel || n is CanonicalizingSelected
                || n is CanonicalizingTopLevel || n is ReadingRemotes || n is CheckingRemoteUrl
                || n is ReadingBranch || n is Finished || n is RepositoryValid
        }),
{
}

/// Base64 turns every started group of three bytes into four symbols.
pub proof fn law_base64_length(b: Seq<u8>)
    ensures
        base64(b).len() == 4 * ((b.len() + 2) / 3),
    decreases b.len(),
{
    if b.len() > 3 {
        law_base64_length(b.skip(3));
    }
}

} // verus!
