//! The focus-session timer: its state, the snapshots it reports and the
//! session records it produces when a session ends.

use vstd::prelude::*;
use crate::text::owned;
use crate::time::{
    MIN_TIMESTAMP_SECS, LocalTime, Timestamp, local_now, local_time_is_valid, seconds_between, timestamp_is_valid,
    utc_now, whole_seconds_between,
};

verus! {

#[derive(Clone, Copy, Debug, PartialEq, Eq, Structural)]
pub enum TimerLifecycleStatus {
    Idle,
    Running,
    Paused,
    Completed,
    Cancelled,
}

#[derive(Clone, Copy, Debug, PartialEq, Eq, Structural)]
pub enum TimerPhase {
    Focus,
    Rest,
}

#[derive(Clone, Copy, Debug, PartialEq, Eq, Structural)]
pub enum SessionRecordStatus {
    Completed,
    Cancelled,
}

#[derive(Clone, Copy, Debug, PartialEq, Eq, Structural)]
pub enum SessionTimeType {
    Focus,
    Rest,
}

/// One focus or rest segment of a session, as stored in the session log.
#[derive(Clone, Debug)]
pub struct SessionRecord {
    pub id: String,
    pub session_id: String,
    pub time_type: SessionTimeType,
    pub status: SessionRecordStatus,
    pub planned_minutes: u32,
    pub actual_seconds: u64,
    pub started_at: LocalTime,
    pub ended_at: LocalTime,
}

pub struct RecordView {
    pub id: Seq<char>,
    pub session_id: Seq<char>,
    pub time_type: SessionTimeType,
    pub status: SessionRecordStatus,
    pub planned_minutes: u32,
    pub actual_seconds: u64,
    pub started_at: LocalTime,
    pub ended_at: LocalTime,
}

/// Everything a record holds but its freshly generated id.
pub struct RecordShape {
    pub session_id: Seq<char>,
    pub time_type: SessionTimeType,
    pub status: SessionRecordStatus,
    pub planned_minutes: u32,
    pub actual_seconds: u64,
    pub started_at: LocalTime,
    pub ended_at: LocalTime,
}

impl View for SessionRecord {
    type V = RecordView;

    open spec fn view(&self) -> RecordView {
        RecordView {
            id: self.id@,
            session_id: self.session_id@,
            time_type: self.time_type,
            status: self.status,
            planned_minutes: self.planned_minutes,
            actual_seconds: self.actual_seconds,
            started_at: self.started_at,
            ended_at: self.ended_at,
        }
    }
}

impl RecordView {
    pub open spec fn shape(self) -> RecordShape {
        RecordShape {
            session_id: self.session_id,
            time_type: self.time_type,
            status: self.status,
            planned_minutes: self.planned_minutes,
            actual_seconds: self.actual_seconds,
            started_at: self.started_at,
            ended_at: self.ended_at,
        }
    }
}

/// The shapes of a list of records.
pub open spec fn shapes_of(records: Seq<SessionRecord>) -> Seq<RecordShape> {
    records.map_values(|r: SessionRecord| r@.shape())
}

impl SessionRecord {
    pub fn duration_seconds(&self) -> (r: u64)
        ensures
            r == self.actual_seconds,
    {
        self.actual_seconds
    }
}

/// The record type used for a stored record that names no type.
pub fn default_session_time_type() -> (t: SessionTimeType)
    ensures
        t == SessionTimeType::Focus,
{
    SessionTimeType::Focus
}

/// The timer's mutable state.
#[derive(Clone, Debug)]
pub struct TimerState {
    pub status: TimerLifecycleStatus,
    pub session_id: Option<String>,
    pub started_at: Option<LocalTime>,
    pub ended_at: Option<LocalTime>,
    pub planned_minutes: u32,
    pub rest_minutes: u32,
    pub phase: TimerPhase,
    pub accumulated_focus_seconds: u64,
    pub accumulated_rest_seconds: u64,
    pub running_started_at: Option<Timestamp>,
    pub paused_at: Option<LocalTime>,
}

pub struct TimerView {
    pub status: TimerLifecycleStatus,
    pub session_id: Option<Seq<char>>,
    pub started_at: Option<LocalTime>,
    pub ended_at: Option<LocalTime>,
    pub planned_minutes: u32,
    pub rest_minutes: u32,
    pub phase: TimerPhase,
    pub accumulated_focus_seconds: u64,
    pub accumulated_rest_seconds: u64,
    pub running_started_at: Option<Timestamp>,
    pub paused_at: Option<LocalTime>,
}

pub open spec fn opt_text(o: Option<String>) -> Option<Seq<char>> {
    match o {
        Some(s) => Some(s@),
        None => None,
    }
}

pub open spec fn opt_local_valid(o: Option<LocalTime>) -> bool {
    match o {
        Some(t) => t.valid(),
        None => true,
    }
}

impl View for TimerState {
    type V = TimerView;

    open spec fn view(&self) -> TimerView {
        TimerView {
            status: self.status,
            session_id: opt_text(self.session_id),
            started_at: self.started_at,
            ended_at: self.ended_at,
            planned_minutes: self.planned_minutes,
            rest_minutes: self.rest_minutes,
            phase: self.phase,
            accumulated_focus_seconds: self.accumulated_focus_seconds,
            accumulated_rest_seconds: self.accumulated_rest_seconds,
            running_started_at: self.running_started_at,
            paused_at: self.paused_at,
        }
    }
}

impl TimerView {
    /// Seconds of focus the session plans.
    pub open spec fn focus_total(self) -> int {
        self.planned_minutes * 60
    }

    /// Seconds of rest the session plans.
    pub open spec fn rest_total(self) -> int {
        self.rest_minutes * 60
    }

    pub open spec fn phase_total(self) -> int {
        match self.phase {
            TimerPhase::Focus => self.focus_total(),
            TimerPhase::Rest => self.rest_total(),
        }
    }

    pub open spec fn phase_accumulated(self) -> int {
        match self.phase {
            TimerPhase::Focus => self.accumulated_focus_seconds as int,
            TimerPhase::Rest => self.accumulated_rest_seconds as int,
        }
    }

    /// Seconds of the current uninterrupted run, zero when not running.
    pub open spec fn run_seconds(self, now: Timestamp) -> int {
        match self.running_started_at {
            Some(start) => whole_seconds_between(start, now),
            None => 0,
        }
    }

    /// Seconds spent in the current phase, saturating at `u64::MAX`.
    pub open spec fn elapsed_phase(self, now: Timestamp) -> int {
        min_int(self.phase_accumulated() + self.run_seconds(now), u64::MAX as int)
    }

    /// Focus seconds done, at most the planned focus.
    pub open spec fn elapsed_focus(self, now: Timestamp) -> int {
        match self.phase {
            TimerPhase::Focus => min_int(self.elapsed_phase(now), self.focus_total()),
            TimerPhase::Rest => self.focus_total(),
        }
    }

    /// Rest seconds done, at most the planned rest.
    pub open spec fn elapsed_rest(self, now: Timestamp) -> int {
        match self.phase {
            TimerPhase::Focus => min_int(self.accumulated_rest_seconds as int, self.rest_total()),
            TimerPhase::Rest => min_int(self.elapsed_phase(now), self.rest_total()),
        }
    }

    pub open spec fn is_active(self) -> bool {
        self.status == TimerLifecycleStatus::Running || self.status == TimerLifecycleStatus::Paused
    }

    /// The invariant every operation keeps: accumulated seconds never exceed
    /// the planned ones and every stored time is valid.
    pub open spec fn wf(self) -> bool {
        &&& self.accumulated_focus_seconds <= self.focus_total()
        &&& self.accumulated_rest_seconds <= self.rest_total()
        &&& match self.running_started_at {
            Some(t) => t.valid(),
            None => true,
        }
        &&& opt_local_valid(self.started_at)
        &&& opt_local_valid(self.ended_at)
        &&& opt_local_valid(self.paused_at)
    }

    /// What a report at `now` needs: when a running focus phase with rest
    /// planned is over, the rest run is dated back by the seconds that ran
    /// past the end of focus, and that instant must be a second count that
    /// an `i64` holds.
    pub open spec fn handover_fits(self, now: Timestamp) -> bool {
        self.status == TimerLifecycleStatus::Running && self.phase == TimerPhase::Focus
            && self.rest_total() > 0 && self.elapsed_phase(now) >= self.phase_total() ==> now.secs
            - (self.elapsed_phase(now) - self.phase_total()) >= i64::MIN
    }

    /// A running focus phase with rest planned has no more focus done than
    /// planned and a valid run start; then a report fits at any valid time
    /// (see `lemma_handover_fits`).
    pub open spec fn can_report(self) -> bool {
        self.status == TimerLifecycleStatus::Running && self.phase == TimerPhase::Focus
            && self.rest_total() > 0 ==> {
            &&& self.accumulated_focus_seconds <= self.focus_total()
            &&& match self.running_started_at {
                Some(t) => t.valid(),
                None => true,
            }
        }
    }
}

pub open spec fn min_int(a: int, b: int) -> int {
    if a <= b {
        a
    } else {
        b
    }
}

/// What the timer reports to its views.
#[derive(Clone, Debug)]
pub struct TimerSnapshot {
    pub status: TimerLifecycleStatus,
    pub session_id: Option<String>,
    pub started_at: Option<LocalTime>,
    pub ended_at: Option<LocalTime>,
    pub planned_minutes: u32,
    pub rest_minutes: u32,
    pub phase: TimerPhase,
    pub accumulated_focus_seconds: u64,
    pub accumulated_rest_seconds: u64,
    pub remaining_seconds: u64,
    /// Length of the current phase; the fraction done is
    /// `(phase_total_seconds - remaining_seconds) / phase_total_seconds`.
    pub phase_total_seconds: u64,
    /// The instant (UTC) at which the running phase ends.
    pub target_end_at: Option<Timestamp>,
    pub paused_at: Option<LocalTime>,
}

pub struct SnapshotView {
    pub status: TimerLifecycleStatus,
    pub session_id: Option<Seq<char>>,
    pub started_at: Option<LocalTime>,
    pub ended_at: Option<LocalTime>,
    pub planned_minutes: u32,
    pub rest_minutes: u32,
    pub phase: TimerPhase,
    pub accumulated_focus_seconds: int,
    pub accumulated_rest_seconds: int,
    pub remaining_seconds: int,
    pub phase_total_seconds: int,
    pub target_end_at: Option<Timestamp>,
    pub paused_at: Option<LocalTime>,
}

impl View for TimerSnapshot {
    type V = SnapshotView;

    open spec fn view(&self) -> SnapshotView {
        SnapshotView {
            status: self.status,
            session_id: opt_text(self.session_id),
            started_at: self.started_at,
            ended_at: self.ended_at,
            planned_minutes: self.planned_minutes,
            rest_minutes: self.rest_minutes,
            phase: self.phase,
            accumulated_focus_seconds: self.accumulated_focus_seconds as int,
            accumulated_rest_seconds: self.accumulated_rest_seconds as int,
            remaining_seconds: self.remaining_seconds as int,
            phase_total_seconds: self.phase_total_seconds as int,
            target_end_at: self.target_end_at,
            paused_at: self.paused_at,
        }
    }
}

/// The snapshot of a timer at `now`.
pub open spec fn snapshot_model(v: TimerView, now: Timestamp) -> SnapshotView {
    let total = v.phase_total();
    let done = min_int(v.elapsed_phase(now), total);
    let remaining = total - done;
    SnapshotView {
        status: v.status,
        session_id: v.session_id,
        started_at: v.started_at,
        ended_at: v.ended_at,
        planned_minutes: v.planned_minutes,
        rest_minutes: v.rest_minutes,
        phase: v.phase,
        accumulated_focus_seconds: v.elapsed_focus(now),
        accumulated_rest_seconds: v.elapsed_rest(now),
        remaining_seconds: remaining,
        phase_total_seconds: total,
        target_end_at: if v.status == TimerLifecycleStatus::Running {
            Some(Timestamp { secs: (now.secs + remaining) as i64, nanos: now.nanos })
        } else {
            None
        },
        paused_at: v.paused_at,
    }
}

/// The planned minutes of a segment of the given type: the focus plan for
/// focus, the rest plan for rest.
pub open spec fn planned_for(v: TimerView, time_type: SessionTimeType) -> u32 {
    match time_type {
        SessionTimeType::Focus => v.planned_minutes,
        SessionTimeType::Rest => v.rest_minutes,
    }
}

pub open spec fn shape_for(
    v: TimerView,
    session_id: Seq<char>,
    time_type: SessionTimeType,
    status: SessionRecordStatus,
    started_at: LocalTime,
    ended_at: LocalTime,
    actual_seconds: int,
) -> RecordShape {
    RecordShape {
        session_id,
        time_type,
        status,
        planned_minutes: planned_for(v, time_type),
        actual_seconds: actual_seconds as u64,
        started_at,
        ended_at,
    }
}

pub open spec fn phase_time_type(p: TimerPhase) -> SessionTimeType {
    match p {
        TimerPhase::Focus => SessionTimeType::Focus,
        TimerPhase::Rest => SessionTimeType::Rest,
    }
}

/// The records of a finished session: one per phase with time done, or a
/// single empty record of the current phase when no time was done.
pub open spec fn records_model(v: TimerView, status: SessionRecordStatus, now: Timestamp) -> Result<
    Seq<RecordShape>,
    Seq<char>,
> {
    if v.session_id is None {
        Err("Session id is missing"@)
    } else if v.started_at is None {
        Err("Session start time is missing"@)
    } else if v.ended_at is None {
        Err("Session end time is missing"@)
    } else {
        let sid = v.session_id->0;
        let started = v.started_at->0;
        let ended = v.ended_at->0;
        let focus = v.elapsed_focus(now);
        let rest = v.elapsed_rest(now);
        let with_focus = if focus > 0 {
            seq![shape_for(v, sid, SessionTimeType::Focus, status, started, ended, focus)]
        } else {
            Seq::empty()
        };
        let with_rest = if rest > 0 {
            with_focus.push(shape_for(v, sid, SessionTimeType::Rest, status, started, ended, rest))
        } else {
            with_focus
        };
        if with_rest.len() == 0 {
            Ok(seq![shape_for(v, sid, phase_time_type(v.phase), status, started, ended, 0)])
        } else {
            Ok(with_rest)
        }
    }
}

pub open spec fn records_result_view(r: Result<Vec<SessionRecord>, String>) -> Result<
    Seq<RecordShape>,
    Seq<char>,
> {
    match r {
        Ok(v) => Ok(shapes_of(v@)),
        Err(e) => Err(e@),
    }
}

/// The timer idle with the given plan.
pub open spec fn reset_model(v: TimerView, planned_minutes: u32, rest_minutes: u32) -> TimerView {
    TimerView {
        status: TimerLifecycleStatus::Idle,
        session_id: None,
        started_at: None,
        ended_at: None,
        planned_minutes,
        rest_minutes,
        phase: TimerPhase::Focus,
        accumulated_focus_seconds: 0,
        accumulated_rest_seconds: 0,
        running_started_at: None,
        paused_at: None,
    }
}

/// A freshly started session.
pub open spec fn begin_model(
    planned_minutes: u32,
    rest_minutes: u32,
    session_id: Seq<char>,
    now_utc: Timestamp,
    now_local: LocalTime,
) -> TimerView {
    TimerView {
        status: TimerLifecycleStatus::Running,
        session_id: Some(session_id),
        started_at: Some(now_local),
        ended_at: None,
        planned_minutes,
        rest_minutes,
        phase: TimerPhase::Focus,
        accumulated_focus_seconds: 0,
        accumulated_rest_seconds: 0,
        running_started_at: Some(now_utc),
        paused_at: None,
    }
}

/// The current phase's elapsed seconds written back, capped at the phase length.
pub open spec fn persist_model(v: TimerView, now: Timestamp) -> TimerView {
    let e = min_int(v.elapsed_phase(now), v.phase_total()) as u64;
    match v.phase {
        TimerPhase::Focus => TimerView { accumulated_focus_seconds: e, ..v },
        TimerPhase::Rest => TimerView { accumulated_rest_seconds: e, ..v },
    }
}

/// The timer stopped at `now` (`local` its local reading) with the given
/// status and end time.
pub open spec fn stop_model(
    v: TimerView,
    now: Timestamp,
    local: LocalTime,
    status: TimerLifecycleStatus,
) -> TimerView {
    let p = persist_model(v, now);
    TimerView {
        running_started_at: None,
        paused_at: None,
        ended_at: Some(local),
        status,
        ..p
    }
}

pub open spec fn start_error(v: TimerView, planned_minutes: u32, rest_minutes: u32) -> Option<
    Seq<char>,
> {
    if v.is_active() {
        Some("A focus session is already active"@)
    } else if planned_minutes == 0 || planned_minutes > 720 {
        Some("Planned minutes must be between 1 and 720"@)
    } else if rest_minutes > 120 {
        Some("Rest minutes must be between 0 and 120"@)
    } else {
        None
    }
}

pub open spec fn pause_model(v: TimerView, now: Timestamp, local: LocalTime) -> TimerView {
    if v.status != TimerLifecycleStatus::Running {
        v
    } else {
        let p = persist_model(v, now);
        TimerView {
            running_started_at: None,
            paused_at: Some(local),
            status: TimerLifecycleStatus::Paused,
            ..p
        }
    }
}

pub open spec fn resume_model(v: TimerView, now: Timestamp) -> TimerView {
    if v.status != TimerLifecycleStatus::Paused {
        v
    } else {
        TimerView {
            status: TimerLifecycleStatus::Running,
            running_started_at: Some(now),
            paused_at: None,
            ..v
        }
    }
}

pub open spec fn cancel_model(v: TimerView, now: Timestamp, local: LocalTime) -> TimerView {
    if !v.is_active() {
        v
    } else {
        stop_model(v, now, local, TimerLifecycleStatus::Cancelled)
    }
}

/// Whether a session stopped for saving holds any time.
pub open spec fn has_time(v: TimerView, now: Timestamp) -> bool {
    v.elapsed_focus(now) + v.elapsed_rest(now) > 0
}

/// The timer after saving: idle with the same plan, unless building the
/// records failed, in which case the session stays stopped.
pub open spec fn save_model(v: TimerView, now: Timestamp, local: LocalTime) -> TimerView {
    if !v.is_active() {
        v
    } else {
        let s = stop_model(v, now, local, v.status);
        if has_time(s, now) && records_model(s, SessionRecordStatus::Completed, now) is Err {
            s
        } else {
            reset_model(s, s.planned_minutes, s.rest_minutes)
        }
    }
}

pub open spec fn save_records(v: TimerView, now: Timestamp, local: LocalTime) -> Result<
    Seq<RecordShape>,
    Seq<char>,
> {
    if !v.is_active() {
        Ok(Seq::empty())
    } else {
        let s = stop_model(v, now, local, v.status);
        if has_time(s, now) {
            records_model(s, SessionRecordStatus::Completed, now)
        } else {
            Ok(Seq::empty())
        }
    }
}

/// The focus phase handed over to rest; the rest run is dated back by the
/// seconds that ran past the end of focus.
pub open spec fn to_rest_model(v: TimerView, now: Timestamp) -> TimerView {
    let overrun = v.elapsed_phase(now) - v.phase_total();
    TimerView {
        accumulated_focus_seconds: v.phase_total() as u64,
        accumulated_rest_seconds: 0,
        phase: TimerPhase::Rest,
        running_started_at: Some(Timestamp { secs: (now.secs - overrun) as i64, nanos: now.nanos }),
        ..v
    }
}

/// The current phase finished and the session completed.
pub open spec fn complete_model(v: TimerView, local: LocalTime) -> TimerView {
    let finished = match v.phase {
        TimerPhase::Focus => TimerView { accumulated_focus_seconds: v.focus_total() as u64, ..v },
        TimerPhase::Rest => TimerView { accumulated_rest_seconds: v.rest_total() as u64, ..v },
    };
    TimerView {
        running_started_at: None,
        paused_at: None,
        ended_at: Some(local),
        status: TimerLifecycleStatus::Completed,
        ..finished
    }
}

pub open spec fn completion_records(v: TimerView, now: Timestamp) -> Option<Seq<RecordShape>> {
    match records_model(v, SessionRecordStatus::Completed, now) {
        Ok(r) => Some(r),
        Err(_) => None,
    }
}

/// A running timer brought up to `now`: a finished focus phase hands over to
/// rest when rest is planned, and a finished last phase completes the
/// session, yielding its records.
pub open spec fn advance_model(v: TimerView, now: Timestamp, local: LocalTime) -> (
    TimerView,
    Option<Seq<RecordShape>>,
) {
    if v.elapsed_phase(now) < v.phase_total() {
        (v, None)
    } else if v.phase == TimerPhase::Focus && v.rest_total() > 0 {
        let r = to_rest_model(v, now);
        if r.elapsed_phase(now) < r.phase_total() {
            (r, None)
        } else {
            let c = complete_model(r, local);
            (c, completion_records(c, now))
        }
    } else {
        let c = complete_model(v, local);
        (c, completion_records(c, now))
    }
}

/// The timer after a snapshot request at `now`, and the records it yields.
pub open spec fn tick_model(v: TimerView, now: Timestamp, local: LocalTime) -> (
    TimerView,
    Seq<RecordShape>,
) {
    if v.status == TimerLifecycleStatus::Running {
        let (a, recs) = advance_model(v, now, local);
        match recs {
            Some(r) => (a, r),
            None => (a, Seq::empty()),
        }
    } else {
        (v, Seq::empty())
    }
}

impl Default for TimerState {
    /// An idle timer planning 25 minutes of focus and no rest.
    fn default() -> (t: TimerState)
        ensures
            t@ == reset_model(t@, 25, 0),
            t@.wf(),
    {
        TimerState {
            status: TimerLifecycleStatus::Idle,
            session_id: None,
            started_at: None,
            ended_at: None,
            planned_minutes: 25,
            rest_minutes: 0,
            phase: TimerPhase::Focus,
            accumulated_focus_seconds: 0,
            accumulated_rest_seconds: 0,
            running_started_at: None,
            paused_at: None,
        }
    }
}

fn opt_local_is_valid(o: Option<LocalTime>) -> (r: bool)
    ensures
        r == opt_local_valid(o),
{
    match o {
        Some(t) => local_time_is_valid(t),
        None => true,
    }
}

impl TimerState {
    /// Whether the timer can be reported at any time (see
    /// `TimerView::can_report`).
    pub fn can_report(&self) -> (r: bool)
        ensures
            r == self@.can_report(),
            r ==> forall|now: Timestamp| now.valid() ==> #[trigger] self@.handover_fits(now),
    {
        let r = !(self.status == TimerLifecycleStatus::Running && self.phase == TimerPhase::Focus
            && rest_total_seconds(self) > 0) || (self.accumulated_focus_seconds
            <= focus_total_seconds(self) && match self.running_started_at {
            Some(t) => timestamp_is_valid(t),
            None => true,
        });
        proof {
            if r {
                assert forall|now: Timestamp| now.valid() implies #[trigger] self@.handover_fits(now) by {
                    lemma_handover_fits(self@, now);
                }
            }
        }
        r
    }

    /// Whether the timer keeps its invariant (see `TimerView::wf`).
    pub fn is_well_formed(&self) -> (r: bool)
        ensures
            r == self@.wf(),
    {
        let running_ok = match self.running_started_at {
            Some(t) => timestamp_is_valid(t),
            None => true,
        };
        self.accumulated_focus_seconds <= focus_total_seconds(self) && self.accumulated_rest_seconds
            <= rest_total_seconds(self) && running_ok && opt_local_is_valid(self.started_at)
            && opt_local_is_valid(self.ended_at) && opt_local_is_valid(self.paused_at)
    }
}

/// A lower-case hexadecimal digit.
pub open spec fn is_lower_hex(c: char) -> bool {
    ('0' <= c && c <= '9') || ('a' <= c && c <= 'f')
}

/// The text of a random (version 4) UUID in hyphenated lower-case form:
/// 36 characters, hexadecimal digits in groups of 8, 4, 4, 4 and 12 joined by
/// hyphens, with `4` as the version digit and `8`, `9`, `a` or `b` as the
/// variant digit.
pub open spec fn is_v4_uuid_text(s: Seq<char>) -> bool {
    &&& s.len() == 36
    &&& forall|i: int|
        0 <= i < 36 ==> if i == 8 || i == 13 || i == 18 || i == 23 {
            #[trigger] s[i] == '-'
        } else {
            is_lower_hex(s[i])
        }
    &&& s[14] == '4'
    &&& (s[19] == '8' || s[19] == '9' || s[19] == 'a' || s[19] == 'b')
}

/// Every record's id is the text of a random UUID.
pub open spec fn ids_are_uuids(records: Seq<SessionRecord>) -> bool {
    forall|i: int| 0 <= i < records.len() ==> is_v4_uuid_text(#[trigger] records[i].id@)
}

/// A fresh UUID from `uuid::Uuid::new_v4`, rendered with `to_string`. The
/// value is random; what holds of every outcome is its form: `new_v4` sets
/// the version and variant bits, and `to_string` writes the hyphenated
/// lower-case form. Like `new_v4`, it panics if the system's random source
/// fails, which no precondition can rule out.
#[verifier::external_body]
fn new_uuid() -> (r: String)
    ensures
        is_v4_uuid_text(r@),
{
    uuid::Uuid::new_v4().to_string()
}

fn focus_total_seconds(timer: &TimerState) -> (r: u64)
    ensures
        r == timer@.focus_total(),
{
    timer.planned_minutes as u64 * 60
}

fn rest_total_seconds(timer: &TimerState) -> (r: u64)
    ensures
        r == timer@.rest_total(),
{
    timer.rest_minutes as u64 * 60
}

fn current_phase_total_seconds(timer: &TimerState) -> (r: u64)
    ensures
        r == timer@.phase_total(),
{
    match timer.phase {
        TimerPhase::Focus => focus_total_seconds(timer),
        TimerPhase::Rest => rest_total_seconds(timer),
    }
}

fn current_run_seconds(timer: &TimerState, now: Timestamp) -> (r: u128)
    ensures
        r == timer@.run_seconds(now),
{
    match timer.running_started_at {
        Some(started_at) => seconds_between(started_at, now),
        None => 0,
    }
}

fn elapsed_current_phase_seconds(timer: &TimerState, now: Timestamp) -> (r: u64)
    ensures
        r == timer@.elapsed_phase(now),
{
    let current_run = current_run_seconds(timer, now);
    let accumulated: u64 = match timer.phase {
        TimerPhase::Focus => timer.accumulated_focus_seconds,
        TimerPhase::Rest => timer.accumulated_rest_seconds,
    };
    let sum: u128 = accumulated as u128 + current_run;
    if sum > u64::MAX as u128 {
        u64::MAX
    } else {
        sum as u64
    }
}

fn elapsed_focus_seconds(timer: &TimerState, now: Timestamp) -> (r: u64)
    ensures
        r == timer@.elapsed_focus(now),
{
    match timer.phase {
        TimerPhase::Focus => {
            let e = elapsed_current_phase_seconds(timer, now);
            let t = focus_total_seconds(timer);
            if e <= t {
                e
            } else {
                t
            }
        },
        TimerPhase::Rest => focus_total_seconds(timer),
    }
}

fn elapsed_rest_seconds(timer: &TimerState, now: Timestamp) -> (r: u64)
    ensures
        r == timer@.elapsed_rest(now),
{
    match timer.phase {
        TimerPhase::Focus => {
            let a = timer.accumulated_rest_seconds;
            let t = rest_total_seconds(timer);
            if a <= t {
                a
            } else {
                t
            }
        },
        TimerPhase::Rest => {
            let e = elapsed_current_phase_seconds(timer, now);
            let t = rest_total_seconds(timer);
            if e <= t {
                e
            } else {
                t
            }
        },
    }
}

fn persist_current_phase_elapsed(timer: &mut TimerState, now: Timestamp)
    ensures
        final(timer)@ == persist_model(old(timer)@, now),
{
    let e = elapsed_current_phase_seconds(timer, now);
    let t = current_phase_total_seconds(timer);
    let elapsed = if e <= t {
        e
    } else {
        t
    };
    match timer.phase {
        TimerPhase::Focus => timer.accumulated_focus_seconds = elapsed,
        TimerPhase::Rest => timer.accumulated_rest_seconds = elapsed,
    }
}

fn persist_finished_phase(timer: &mut TimerState)
    ensures
        final(timer)@ == (match old(timer)@.phase {
            TimerPhase::Focus => TimerView {
                accumulated_focus_seconds: old(timer)@.focus_total() as u64,
                ..old(timer)@
            },
            TimerPhase::Rest => TimerView {
                accumulated_rest_seconds: old(timer)@.rest_total() as u64,
                ..old(timer)@
            },
        }),
{
    match timer.phase {
        TimerPhase::Focus => timer.accumulated_focus_seconds = focus_total_seconds(timer),
        TimerPhase::Rest => timer.accumulated_rest_seconds = rest_total_seconds(timer),
    }
}

/// `now` moved back by whole seconds.
fn subtract_seconds(now: Timestamp, seconds: u64) -> (r: Timestamp)
    requires
        now.secs - seconds >= i64::MIN,
    ensures
        r == (Timestamp { secs: (now.secs - seconds) as i64, nanos: now.nanos }),
{
    let secs: i128 = now.secs as i128 - seconds as i128;
    Timestamp { secs: secs as i64, nanos: now.nanos }
}

fn build_snapshot(timer: &TimerState, now: Timestamp) -> (s: TimerSnapshot)
    requires
        now.valid(),
    ensures
        s@ == snapshot_model(timer@, now),
{
    let phase_total_seconds = current_phase_total_seconds(timer);
    let e = elapsed_current_phase_seconds(timer, now);
    let phase_elapsed = if e <= phase_total_seconds {
        e
    } else {
        phase_total_seconds
    };
    let remaining_seconds = phase_total_seconds - phase_elapsed;
    let target_end_at = if timer.status == TimerLifecycleStatus::Running {
        Some(Timestamp { secs: now.secs + remaining_seconds as i64, nanos: now.nanos })
    } else {
        None
    };
    let session_id = match &timer.session_id {
        Some(s) => Some(s.clone()),
        None => None,
    };
    TimerSnapshot {
        status: timer.status,
        session_id,
        started_at: timer.started_at,
        ended_at: timer.ended_at,
        planned_minutes: timer.planned_minutes,
        rest_minutes: timer.rest_minutes,
        phase: timer.phase,
        accumulated_focus_seconds: elapsed_focus_seconds(timer, now),
        accumulated_rest_seconds: elapsed_rest_seconds(timer, now),
        remaining_seconds,
        phase_total_seconds,
        target_end_at,
        paused_at: timer.paused_at,
    }
}

fn build_phase_record(
    session_id: &String,
    time_type: SessionTimeType,
    status: SessionRecordStatus,
    started_at: LocalTime,
    ended_at: LocalTime,
    planned_minutes: u32,
    actual_seconds: u64,
) -> (r: SessionRecord)
    ensures
        r@.shape() == (RecordShape {
            session_id: session_id@,
            time_type,
            status,
            planned_minutes,
            actual_seconds,
            started_at,
            ended_at,
        }),
        is_v4_uuid_text(r.id@),
{
    SessionRecord {
        id: new_uuid(),
        session_id: session_id.clone(),
        time_type,
        status,
        planned_minutes,
        actual_seconds,
        started_at,
        ended_at,
    }
}

fn build_records(timer: &TimerState, status: SessionRecordStatus, now: Timestamp) -> (r: Result<
    Vec<SessionRecord>,
    String,
>)
    ensures
        records_result_view(r) == records_model(timer@, status, now),
        r is Ok ==> ids_are_uuids(r->Ok_0@),
{
    let session_id = match &timer.session_id {
        Some(s) => s.clone(),
        None => return Err(owned("Session id is missing")),
    };
    let started_at = match timer.started_at {
        Some(t) => t,
        None => return Err(owned("Session start time is missing")),
    };
    let ended_at = match timer.ended_at {
        Some(t) => t,
        None => return Err(owned("Session end time is missing")),
    };
    let focus_seconds = elapsed_focus_seconds(timer, now);
    let rest_seconds = elapsed_rest_seconds(timer, now);
    let ghost v = timer@;
    let mut records: Vec<SessionRecord> = Vec::new();

    if focus_seconds > 0 {
        records.push(
            build_phase_record(
                &session_id,
                SessionTimeType::Focus,
                status,
                started_at,
                ended_at,
                timer.planned_minutes,
                focus_seconds,
            ),
        );
    }
    let ghost with_focus = if focus_seconds > 0 {
        seq![shape_for(v, session_id@, SessionTimeType::Focus, status, started_at, ended_at, focus_seconds as int)]
    } else {
        Seq::<RecordShape>::empty()
    };
    assert(shapes_of(records@) =~= with_focus);
    assert(ids_are_uuids(records@));

    if rest_seconds > 0 {
        records.push(
            build_phase_record(
                &session_id,
                SessionTimeType::Rest,
                status,
                started_at,
                ended_at,
                timer.rest_minutes,
                rest_seconds,
            ),
        );
    }
    let ghost with_rest = if rest_seconds > 0 {
        with_focus.push(shape_for(v, session_id@, SessionTimeType::Rest, status, started_at, ended_at, rest_seconds as int))
    } else {
        with_focus
    };
    assert(shapes_of(records@) =~= with_rest);
    assert(ids_are_uuids(records@));

    if records.len() == 0 {
        let (time_type, planned) = match timer.phase {
            TimerPhase::Focus => (SessionTimeType::Focus, timer.planned_minutes),
            TimerPhase::Rest => (SessionTimeType::Rest, timer.rest_minutes),
        };
        records.push(
            build_phase_record(
                &session_id,
                time_type,
                status,
                started_at,
                ended_at,
                planned,
                0,
            ),
        );
        assert(shapes_of(records@) =~= seq![shape_for(v, session_id@, phase_time_type(v.phase), status, started_at, ended_at, 0)]);
    }
    assert(ids_are_uuids(records@));
    Ok(records)
}

fn reset_to_idle(timer: &mut TimerState, planned_minutes: u32, rest_minutes: u32)
    ensures
        final(timer)@ == reset_model(old(timer)@, planned_minutes, rest_minutes),
{
    timer.status = TimerLifecycleStatus::Idle;
    timer.session_id = None;
    timer.started_at = None;
    timer.ended_at = None;
    timer.planned_minutes = planned_minutes;
    timer.rest_minutes = rest_minutes;
    timer.phase = TimerPhase::Focus;
    timer.accumulated_focus_seconds = 0;
    timer.accumulated_rest_seconds = 0;
    timer.running_started_at = None;
    timer.paused_at = None;
}

fn begin_timer(
    timer: &mut TimerState,
    planned_minutes: u32,
    rest_minutes: u32,
    now_utc: Timestamp,
    now_local: LocalTime,
) -> (s: TimerSnapshot)
    requires
        now_utc.valid(),
    ensures
        final(timer)@.session_id is Some,
        is_v4_uuid_text(final(timer)@.session_id->0),
        final(timer)@ == begin_model(
            planned_minutes,
            rest_minutes,
            final(timer)@.session_id->0,
            now_utc,
            now_local,
        ),
        s@ == snapshot_model(final(timer)@, now_utc),
{
    timer.status = TimerLifecycleStatus::Running;
    timer.session_id = Some(new_uuid());
    timer.started_at = Some(now_local);
    timer.ended_at = None;
    timer.planned_minutes = planned_minutes;
    timer.rest_minutes = rest_minutes;
    timer.phase = TimerPhase::Focus;
    timer.accumulated_focus_seconds = 0;
    timer.accumulated_rest_seconds = 0;
    timer.running_started_at = Some(now_utc);
    timer.paused_at = None;

    build_snapshot(timer, now_utc)
}

/// Seconds of a run never exceed the difference of the whole seconds.
proof fn lemma_run_bound(start: Timestamp, now: Timestamp)
    requires
        start.nanos < 1_000_000_000,
        now.nanos < 1_000_000_000,
    ensures
        whole_seconds_between(start, now) <= if now.secs >= start.secs {
            now.secs - start.secs
        } else {
            0
        },
        whole_seconds_between(start, now) >= 0,
{
    let a: int = now.secs - start.secs;
    let b: int = now.nanos - start.nanos;
    let d: int = a * 1_000_000_000 + b;
    if d > 0 {
        let q: int = d / 1_000_000_000;
        let r: int = d % 1_000_000_000;
        vstd::arithmetic::div_mod::lemma_fundamental_div_mod(d, 1_000_000_000);
        assert(q <= a && q >= 0) by (nonlinear_arith)
            requires
                d == 1_000_000_000 * q + r,
                0 <= r < 1_000_000_000,
                d == a * 1_000_000_000 + b,
                -1_000_000_000 < b < 1_000_000_000,
                d > 0,
        ;
    }
}

/// When a report hands a focus phase over to rest, the rest run starts no
/// later than `now` and no earlier than the first instant chrono can hold,
/// provided the timer can report.
proof fn lemma_handover_start(v: TimerView, now: Timestamp)
    requires
        v.can_report(),
        now.valid(),
        v.status == TimerLifecycleStatus::Running,
        v.phase == TimerPhase::Focus,
        v.rest_total() > 0,
        v.elapsed_phase(now) >= v.phase_total(),
    ensures
        MIN_TIMESTAMP_SECS <= now.secs - (v.elapsed_phase(now) - v.phase_total()) <= now.secs,
{
    match v.running_started_at {
        Some(start) => {
            lemma_run_bound(start, now);
        },
        None => {},
    }
}

/// A timer that can report fits a report at any valid time.
pub proof fn lemma_handover_fits(v: TimerView, now: Timestamp)
    requires
        v.can_report(),
        now.valid(),
    ensures
        v.handover_fits(now),
{
    if v.status == TimerLifecycleStatus::Running && v.phase == TimerPhase::Focus && v.rest_total() > 0
        && v.elapsed_phase(now) >= v.phase_total() {
        lemma_handover_start(v, now);
    }
}

fn advance_running_timer(timer: &mut TimerState, now: Timestamp, local: LocalTime) -> (r: Option<
    Vec<SessionRecord>,
>)
    requires
        old(timer)@.status == TimerLifecycleStatus::Running,
        old(timer)@.handover_fits(now),
        now.valid(),
    ensures
        final(timer)@ == advance_model(old(timer)@, now, local).0,
        match r {
            Some(recs) => advance_model(old(timer)@, now, local).1 == Some(shapes_of(recs@))
                && ids_are_uuids(recs@),
            None => advance_model(old(timer)@, now, local).1 is None,
        },
{
    let ghost v0 = timer@;
    loop
        invariant
            v0 == old(timer)@,
            v0.status == TimerLifecycleStatus::Running,
            v0.handover_fits(now),
            now.valid(),
            timer@ == v0 || (v0.phase == TimerPhase::Focus && v0.rest_total() > 0
                && v0.elapsed_phase(now) >= v0.phase_total() && timer@ == to_rest_model(v0, now)),
        decreases
                (if timer.phase == TimerPhase::Focus {
                    1int
                } else {
                    0int
                }),
    {
        let phase_total_seconds = current_phase_total_seconds(timer);
        let elapsed = elapsed_current_phase_seconds(timer, now);
        if elapsed < phase_total_seconds {
            return None;
        }
        let overrun_seconds = elapsed - phase_total_seconds;
        if timer.phase == TimerPhase::Focus && rest_total_seconds(timer) > 0 {
            assert(timer@ == v0);
            timer.accumulated_focus_seconds = phase_total_seconds;
            timer.accumulated_rest_seconds = 0;
            timer.phase = TimerPhase::Rest;
            timer.running_started_at = Some(subtract_seconds(now, overrun_seconds));
            assert(timer@ == to_rest_model(v0, now));
        } else {
            persist_finished_phase(timer);
            timer.running_started_at = None;
            timer.paused_at = None;
            timer.ended_at = Some(local);
            timer.status = TimerLifecycleStatus::Completed;
            let built = build_records(timer, SessionRecordStatus::Completed, now);
            return match built {
                Ok(records) => Some(records),
                Err(_) => None,
            };
        }
    }
}

/// Starts a session at the given instants, unless one is already active or
/// the plan is out of range.
pub fn start_timer_at(
    timer: &mut TimerState,
    planned_minutes: u32,
    rest_minutes: u32,
    now_utc: Timestamp,
    now_local: LocalTime,
) -> (r: Result<TimerSnapshot, String>)
    requires
        now_utc.valid(),
    ensures
        match start_error(old(timer)@, planned_minutes, rest_minutes) {
            Some(e) => r is Err && r->Err_0@ == e && final(timer)@ == old(timer)@,
            None => {
                &&& r is Ok
                &&& final(timer)@.session_id is Some
                &&& is_v4_uuid_text(final(timer)@.session_id->0)
                &&& final(timer)@ == begin_model(
                    planned_minutes,
                    rest_minutes,
                    final(timer)@.session_id->0,
                    now_utc,
                    now_local,
                )
                &&& r->Ok_0@ == snapshot_model(final(timer)@, now_utc)
            },
        },
        old(timer)@.wf() && now_local.valid() ==> final(timer)@.wf(),
{
    if timer.status == TimerLifecycleStatus::Running || timer.status == TimerLifecycleStatus::Paused {
        return Err(owned("A focus session is already active"));
    }
    if planned_minutes == 0 || planned_minutes > 720 {
        return Err(owned("Planned minutes must be between 1 and 720"));
    }
    if rest_minutes > 120 {
        return Err(owned("Rest minutes must be between 0 and 120"));
    }
    Ok(begin_timer(timer, planned_minutes, rest_minutes, now_utc, now_local))
}

/// Starts a session now (see `start_timer_at`).
pub fn start_timer(timer: &mut TimerState, planned_minutes: u32, rest_minutes: u32) -> (r: Result<
    TimerSnapshot,
    String,
>)
    ensures
        match start_error(old(timer)@, planned_minutes, rest_minutes) {
            Some(e) => r is Err && r->Err_0@ == e && final(timer)@ == old(timer)@,
            None => exists|u: Timestamp, l: LocalTime|
                {
                    &&& u.valid()
                    &&& l.valid()
                    &&& r is Ok
                    &&& final(timer)@.session_id is Some
                    &&& is_v4_uuid_text(final(timer)@.session_id->0)
                    &&& final(timer)@ == begin_model(
                        planned_minutes,
                        rest_minutes,
                        final(timer)@.session_id->0,
                        u,
                        l,
                    )
                    &&& r->Ok_0@ == snapshot_model(final(timer)@, u)
                },
        },
        old(timer)@.wf() ==> final(timer)@.wf(),
{
    let now_local = local_now();
    let now_utc = utc_now();
    let r = start_timer_at(timer, planned_minutes, rest_minutes, now_utc, now_local);
    proof {
        if start_error(old(timer)@, planned_minutes, rest_minutes) is None {
            assert(r is Ok);
        }
    }
    r
}

/// Applies a new plan to a timer that is not running or paused: the plan is
/// clamped to 1..=720 focus minutes and at most 120 rest minutes, and the
/// timer is reset to idle.
pub fn apply_idle_preferences(timer: &mut TimerState, planned_minutes: u32, rest_minutes: u32)
    ensures
        final(timer)@ == if old(timer)@.is_active() {
            old(timer)@
        } else {
            reset_model(
                old(timer)@,
                if planned_minutes < 1 {
                    1
                } else if planned_minutes > 720 {
                    720
                } else {
                    planned_minutes
                },
                if rest_minutes > 120 {
                    120
                } else {
                    rest_minutes
                },
            )
        },
        old(timer)@.wf() ==> final(timer)@.wf(),
{
    if !(timer.status == TimerLifecycleStatus::Running || timer.status
        == TimerLifecycleStatus::Paused) {
        let planned = if planned_minutes < 1 {
            1
        } else if planned_minutes > 720 {
            720
        } else {
            planned_minutes
        };
        let rest = if rest_minutes > 120 {
            120
        } else {
            rest_minutes
        };
        reset_to_idle(timer, planned, rest);
    }
}

/// Pauses a running timer at the given instants; any other timer is left as it is.
pub fn pause_timer_at(timer: &mut TimerState, now_utc: Timestamp, now_local: LocalTime) -> (r:
    Result<TimerSnapshot, String>)
    requires
        now_utc.valid(),
    ensures
        final(timer)@ == pause_model(old(timer)@, now_utc, now_local),
        r is Ok,
        r->Ok_0@ == snapshot_model(final(timer)@, now_utc),
        old(timer)@.wf() && now_local.valid() ==> final(timer)@.wf(),
{
    if timer.status != TimerLifecycleStatus::Running {
        return Ok(build_snapshot(timer, now_utc));
    }
    persist_current_phase_elapsed(timer, now_utc);
    timer.running_started_at = None;
    timer.paused_at = Some(now_local);
    timer.status = TimerLifecycleStatus::Paused;
    Ok(build_snapshot(timer, now_utc))
}

/// Pauses a running timer now (see `pause_timer_at`).
pub fn pause_timer(timer: &mut TimerState) -> (r: Result<TimerSnapshot, String>)
    ensures
        exists|u: Timestamp, l: LocalTime|
            {
                &&& u.valid()
                &&& l.valid()
                &&& final(timer)@ == pause_model(old(timer)@, u, l)
                &&& r is Ok
                &&& r->Ok_0@ == snapshot_model(final(timer)@, u)
            },
        old(timer)@.wf() ==> final(timer)@.wf(),
{
    let now_utc = utc_now();
    let now_local = local_now();
    pause_timer_at(timer, now_utc, now_local)
}

/// Resumes a paused timer at the given instant; any other timer is left as it is.
pub fn resume_timer_at(timer: &mut TimerState, now_utc: Timestamp) -> (r: Result<
    TimerSnapshot,
    String,
>)
    requires
        now_utc.valid(),
    ensures
        final(timer)@ == resume_model(old(timer)@, now_utc),
        r is Ok,
        r->Ok_0@ == snapshot_model(final(timer)@, now_utc),
        old(timer)@.wf() ==> final(timer)@.wf(),
{
    if timer.status != TimerLifecycleStatus::Paused {
        return Ok(build_snapshot(timer, now_utc));
    }
    timer.status = TimerLifecycleStatus::Running;
    timer.running_started_at = Some(now_utc);
    timer.paused_at = None;
    Ok(build_snapshot(timer, now_utc))
}

/// Resumes a paused timer now (see `resume_timer_at`).
pub fn resume_timer(timer: &mut TimerState) -> (r: Result<TimerSnapshot, String>)
    ensures
        exists|u: Timestamp|
            {
                &&& u.valid()
                &&& final(timer)@ == resume_model(old(timer)@, u)
                &&& r is Ok
                &&& r->Ok_0@ == snapshot_model(final(timer)@, u)
            },
        old(timer)@.wf() ==> final(timer)@.wf(),
{
    let now_utc = utc_now();
    resume_timer_at(timer, now_utc)
}

/// Cancels a running or paused session at the given instants, yielding its
/// records marked cancelled; any other timer is left as it is and yields none.
pub fn cancel_timer_at(timer: &mut TimerState, now_utc: Timestamp, now_local: LocalTime) -> (r:
    Result<(TimerSnapshot, Vec<SessionRecord>), String>)
    requires
        now_utc.valid(),
    ensures
        final(timer)@ == cancel_model(old(timer)@, now_utc, now_local),
        !old(timer)@.is_active() ==> r is Ok && r->Ok_0.1@.len() == 0,
        old(timer)@.is_active() ==> match records_model(
            final(timer)@,
            SessionRecordStatus::Cancelled,
            now_utc,
        ) {
            Ok(shapes) => r is Ok && shapes_of(r->Ok_0.1@) == shapes,
            Err(e) => r is Err && r->Err_0@ == e,
        },
        r is Ok ==> r->Ok_0.0@ == snapshot_model(final(timer)@, now_utc),
        r is Ok ==> ids_are_uuids(r->Ok_0.1@),
        old(timer)@.wf() && now_local.valid() ==> final(timer)@.wf(),
{
    if !(timer.status == TimerLifecycleStatus::Running || timer.status
        == TimerLifecycleStatus::Paused) {
        return Ok((build_snapshot(timer, now_utc), Vec::new()));
    }
    persist_current_phase_elapsed(timer, now_utc);
    timer.running_started_at = None;
    timer.paused_at = None;
    timer.ended_at = Some(now_local);
    timer.status = TimerLifecycleStatus::Cancelled;
    let records = build_records(timer, SessionRecordStatus::Cancelled, now_utc)?;
    Ok((build_snapshot(timer, now_utc), records))
}

/// Cancels the active session now (see `cancel_timer_at`).
pub fn cancel_timer(timer: &mut TimerState) -> (r: Result<(TimerSnapshot, Vec<SessionRecord>), String>)
    ensures
        exists|u: Timestamp, l: LocalTime|
            {
                &&& u.valid()
                &&& l.valid()
                &&& final(timer)@ == cancel_model(old(timer)@, u, l)
                &&& (!old(timer)@.is_active() ==> r is Ok && r->Ok_0.1@.len() == 0)
                &&& (old(timer)@.is_active() ==> match records_model(
                    final(timer)@,
                    SessionRecordStatus::Cancelled,
                    u,
                ) {
                    Ok(shapes) => r is Ok && shapes_of(r->Ok_0.1@) == shapes,
                    Err(e) => r is Err && r->Err_0@ == e,
                })
                &&& (r is Ok ==> r->Ok_0.0@ == snapshot_model(final(timer)@, u))
            },
        r is Ok ==> ids_are_uuids(r->Ok_0.1@),
        old(timer)@.wf() ==> final(timer)@.wf(),
{
    let now_utc = utc_now();
    let now_local = local_now();
    cancel_timer_at(timer, now_utc, now_local)
}

/// Ends the active session at the given instants, yielding its records marked
/// completed when any time was done, and resets the timer to idle with the
/// same plan. Any other timer is left as it is and yields no record.
pub fn save_and_reset_timer_at(
    timer: &mut TimerState,
    now_utc: Timestamp,
    now_local: LocalTime,
) -> (r: Result<(TimerSnapshot, Vec<SessionRecord>), String>)
    requires
        now_utc.valid(),
    ensures
        final(timer)@ == save_model(old(timer)@, now_utc, now_local),
        match save_records(old(timer)@, now_utc, now_local) {
            Ok(shapes) => r is Ok && shapes_of(r->Ok_0.1@) == shapes,
            Err(e) => r is Err && r->Err_0@ == e,
        },
        r is Ok ==> r->Ok_0.0@ == snapshot_model(final(timer)@, now_utc),
        r is Ok ==> ids_are_uuids(r->Ok_0.1@),
        old(timer)@.wf() && now_local.valid() ==> final(timer)@.wf(),
{
    if !(timer.status == TimerLifecycleStatus::Running || timer.status
        == TimerLifecycleStatus::Paused) {
        let empty: Vec<SessionRecord> = Vec::new();
        assert(shapes_of(empty@) =~= Seq::<RecordShape>::empty());
        return Ok((build_snapshot(timer, now_utc), empty));
    }
    persist_current_phase_elapsed(timer, now_utc);
    timer.running_started_at = None;
    timer.paused_at = None;
    timer.ended_at = Some(now_local);

    let planned_minutes = timer.planned_minutes;
    let rest_minutes = timer.rest_minutes;
    let focus = elapsed_focus_seconds(timer, now_utc);
    let rest = elapsed_rest_seconds(timer, now_utc);
    let records = if focus.saturating_add(rest) > 0 {
        build_records(timer, SessionRecordStatus::Completed, now_utc)?
    } else {
        let empty: Vec<SessionRecord> = Vec::new();
        assert(shapes_of(empty@) =~= Seq::<RecordShape>::empty());
        empty
    };
    reset_to_idle(timer, planned_minutes, rest_minutes);
    let snapshot = build_snapshot(timer, now_utc);
    Ok((snapshot, records))
}

/// Ends the active session now (see `save_and_reset_timer_at`).
pub fn save_and_reset_timer(timer: &mut TimerState) -> (r: Result<
    (TimerSnapshot, Vec<SessionRecord>),
    String,
>)
    ensures
        exists|u: Timestamp, l: LocalTime|
            {
                &&& u.valid()
                &&& l.valid()
                &&& final(timer)@ == save_model(old(timer)@, u, l)
                &&& match save_records(old(timer)@, u, l) {
                    Ok(shapes) => r is Ok && shapes_of(r->Ok_0.1@) == shapes,
                    Err(e) => r is Err && r->Err_0@ == e,
                }
                &&& (r is Ok ==> r->Ok_0.0@ == snapshot_model(final(timer)@, u))
            },
        r is Ok ==> ids_are_uuids(r->Ok_0.1@),
        old(timer)@.wf() ==> final(timer)@.wf(),
{
    let now_utc = utc_now();
    let now_local = local_now();
    save_and_reset_timer_at(timer, now_utc, now_local)
}

/// Brings a running timer up to the given instants (moving from focus to
/// rest, or completing the session) and reports it, with the records of a
/// session that completed just now.
pub fn snapshot_timer_at(timer: &mut TimerState, now_utc: Timestamp, now_local: LocalTime) -> (r: (
    TimerSnapshot,
    Vec<SessionRecord>,
))
    requires
        old(timer)@.handover_fits(now_utc),
        now_utc.valid(),
    ensures
        final(timer)@ == tick_model(old(timer)@, now_utc, now_local).0,
        shapes_of(r.1@) == tick_model(old(timer)@, now_utc, now_local).1,
        r.0@ == snapshot_model(final(timer)@, now_utc),
        ids_are_uuids(r.1@),
        old(timer)@.wf() && now_local.valid() ==> final(timer)@.wf(),
{
    proof {
        let v = timer@;
        if v.wf() && v.status == TimerLifecycleStatus::Running && v.phase == TimerPhase::Focus
            && v.rest_total() > 0 && v.elapsed_phase(now_utc) >= v.phase_total() {
            lemma_handover_start(v, now_utc);
        }
    }
    if timer.status == TimerLifecycleStatus::Running {
        if let Some(records) = advance_running_timer(timer, now_utc, now_local) {
            return (build_snapshot(timer, now_utc), records);
        }
    }
    let empty: Vec<SessionRecord> = Vec::new();
    assert(shapes_of(empty@) =~= Seq::<RecordShape>::empty());
    (build_snapshot(timer, now_utc), empty)
}

/// Reports the timer now (see `snapshot_timer_at`).
pub fn snapshot_timer(timer: &mut TimerState) -> (r: (TimerSnapshot, Vec<SessionRecord>))
    requires
        forall|now: Timestamp| now.valid() ==> #[trigger] old(timer)@.handover_fits(now),
    ensures
        exists|u: Timestamp, l: LocalTime|
            {
                &&& u.valid()
                &&& l.valid()
                &&& final(timer)@ == tick_model(old(timer)@, u, l).0
                &&& shapes_of(r.1@) == tick_model(old(timer)@, u, l).1
                &&& r.0@ == snapshot_model(final(timer)@, u)
            },
        ids_are_uuids(r.1@),
        old(timer)@.wf() ==> final(timer)@.wf(),
{
    let now_utc = utc_now();
    let now_local = local_now();
    snapshot_timer_at(timer, now_utc, now_local)
}

/// The records a timer leaves when the application closes: those of a
/// session that completes on this last report, or else those of saving the
/// active session.
pub open spec fn exit_records(
    v: TimerView,
    u1: Timestamp,
    l1: LocalTime,
    u2: Timestamp,
    l2: LocalTime,
    after: TimerView,
    r: Result<Seq<RecordShape>, Seq<char>>,
) -> bool {
    let (t1, recs) = tick_model(v, u1, l1);
    if recs.len() > 0 {
        after == t1 && r == Ok::<Seq<RecordShape>, Seq<char>>(recs)
    } else {
        after == save_model(t1, u2, l2) && r == save_records(t1, u2, l2)
    }
}

/// Brings the timer up to date and, when that completed no session, saves
/// the active one; returns the records to store.
pub fn finish_before_exit(timer: &mut TimerState) -> (r: Result<Vec<SessionRecord>, String>)
    requires
        forall|now: Timestamp| now.valid() ==> #[trigger] old(timer)@.handover_fits(now),
    ensures
        exists|u1: Timestamp, l1: LocalTime, u2: Timestamp, l2: LocalTime|
            {
                &&& u1.valid()
                &&& l1.valid()
                &&& u2.valid()
                &&& l2.valid()
                &&& exit_records(old(timer)@, u1, l1, u2, l2, final(timer)@, records_result_view(r))
            },
        r is Ok ==> ids_are_uuids(r->Ok_0@),
        old(timer)@.wf() ==> final(timer)@.wf(),
{
    let ghost v0 = timer@;
    let u1 = utc_now();
    let l1 = local_now();
    let (_, records) = snapshot_timer_at(timer, u1, l1);
    let ghost t1 = timer@;
    assert(shapes_of(records@).len() == records@.len());
    if records.len() > 0 {
        let r: Result<Vec<SessionRecord>, String> = Ok(records);
        assert(exit_records(v0, u1, l1, u1, l1, timer@, records_result_view(r)));
        return r;
    }
    let u2 = utc_now();
    let l2 = local_now();
    let saved = save_and_reset_timer_at(timer, u2, l2);
    let r: Result<Vec<SessionRecord>, String> = match saved {
        Ok((_, reset_records)) => Ok(reset_records),
        Err(e) => Err(e),
    };
    assert(exit_records(v0, u1, l1, u2, l2, timer@, records_result_view(r)));
    r
}

} // verus!
