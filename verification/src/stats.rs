//! Daily progress: completed focus and rest time per reporting day, the
//! remaining goal and the streak of days that met it.

use std::collections::HashMap;
use vstd::prelude::*;
use crate::domain::{SessionRecord, SessionRecordStatus, SessionTimeType};
use crate::storage::{LAST_RESET_MINUTE, Settings, clamp_spec, clamp_u32};
use crate::time::{LocalTime, is_weekend, is_weekend_day, local_day_and_minute, local_now};

verus! {

#[derive(Clone, Copy, Debug, PartialEq, Eq, Structural)]
pub struct DailyProgress {
    pub daily_goal_minutes: u32,
    pub yesterday_completed_seconds: u64,
    pub today_completed_seconds: u64,
    pub today_rest_seconds: u64,
    pub today_remaining_seconds: u64,
    pub streak_days: u32,
}

/// The reporting day of a local date-time: days start at the reset time, so
/// a time before it belongs to the previous calendar day.
pub open spec fn period_day(t: LocalTime, reset_minutes: int) -> int {
    if t.minute_of_day() < reset_minutes {
        t.local_day() - 1
    } else {
        t.local_day()
    }
}

/// A completed record of the given type that ended on the given reporting day.
pub open spec fn counts_on(r: SessionRecord, time_type: SessionTimeType, reset_minutes: int, day: int) -> bool {
    &&& r.status == SessionRecordStatus::Completed
    &&& r.time_type == time_type
    &&& period_day(r.ended_at, reset_minutes) == day
}

/// Seconds of the completed records of a type on a reporting day.
pub open spec fn completed_on(
    records: Seq<SessionRecord>,
    time_type: SessionTimeType,
    reset_minutes: int,
    day: int,
) -> int
    decreases records.len(),
{
    if records.len() == 0 {
        0
    } else {
        completed_on(records.drop_last(), time_type, reset_minutes, day) + if counts_on(
            records.last(),
            time_type,
            reset_minutes,
            day,
        ) {
            records.last().actual_seconds as int
        } else {
            0
        }
    }
}

/// Every per-day, per-type total fits in a `u64`.
pub open spec fn sums_fit(records: Seq<SessionRecord>, reset_minutes: int) -> bool {
    forall|t: SessionTimeType, day: int| #[trigger] completed_on(records, t, reset_minutes, day) <= u64::MAX
}

/// The latest day on or before `day` that counts for streaks: every day when
/// weekends count, otherwise the latest weekday.
pub open spec fn counted_day_at_or_before(day: int, include_weekends: bool) -> int {
    if include_weekends || !is_weekend_day(day) {
        day
    } else if !is_weekend_day(day - 1) {
        day - 1
    } else {
        day - 2
    }
}

/// The `n`-th counted day going back from `start` (the 0-th being the latest
/// counted day on or before `start`).
pub open spec fn nth_counted_day(start: int, n: nat, include_weekends: bool) -> int
    decreases n,
{
    if n == 0 {
        counted_day_at_or_before(start, include_weekends)
    } else {
        counted_day_at_or_before(nth_counted_day(start, (n - 1) as nat, include_weekends) - 1, include_weekends)
    }
}

/// A day whose completed focus reached the goal.
pub open spec fn met_goal(records: Seq<SessionRecord>, reset_minutes: int, goal_seconds: int, day: int) -> bool {
    completed_on(records, SessionTimeType::Focus, reset_minutes, day) >= goal_seconds
}

/// `k` is the streak going back from `start`: the first `k` counted days met
/// the goal and the next one did not.
pub open spec fn is_streak(
    records: Seq<SessionRecord>,
    reset_minutes: int,
    goal_seconds: int,
    include_weekends: bool,
    start: int,
    k: nat,
) -> bool {
    &&& forall|j: nat|
        j < k ==> met_goal(records, reset_minutes, goal_seconds, #[trigger] nth_counted_day(start, j, include_weekends))
    &&& !met_goal(records, reset_minutes, goal_seconds, nth_counted_day(start, k, include_weekends))
}

/// The streak going back from `start` is at most `u32::MAX`.
pub open spec fn streak_fits(
    records: Seq<SessionRecord>,
    reset_minutes: int,
    goal_seconds: int,
    include_weekends: bool,
    start: int,
) -> bool {
    exists|k: nat|
        k <= u32::MAX && !met_goal(records, reset_minutes, goal_seconds, #[trigger] nth_counted_day(start, k, include_weekends))
}

pub open spec fn goal_minutes_of(settings: Settings) -> int {
    clamp_spec(settings.daily_goal_minutes as int, 1, 720)
}

pub open spec fn reset_minutes_of(settings: Settings) -> int {
    if settings.daily_reset_minutes > LAST_RESET_MINUTE {
        LAST_RESET_MINUTE as int
    } else {
        settings.daily_reset_minutes as int
    }
}

/// The reporting day before the one containing `now`.
pub open spec fn yesterday_of(settings: Settings, now: LocalTime) -> int {
    period_day(now, reset_minutes_of(settings)) - 1
}

/// What `daily_progress_at` needs: the per-day totals fit in `u64` and the
/// streak ending yesterday fits in `u32`.
pub open spec fn progress_fits(records: Seq<SessionRecord>, settings: Settings, now: LocalTime) -> bool {
    &&& sums_fit(records, reset_minutes_of(settings))
    &&& streak_fits(
        records,
        reset_minutes_of(settings),
        goal_minutes_of(settings) * 60,
        settings.include_weekends_in_streak,
        yesterday_of(settings, now),
    )
}

/// The progress report for the reporting day containing `now`, its streak
/// being `streak`.
pub open spec fn progress_model(records: Seq<SessionRecord>, settings: Settings, now: LocalTime, p: DailyProgress) -> bool {
    let goal_minutes = goal_minutes_of(settings);
    let reset = reset_minutes_of(settings);
    let goal_seconds = goal_minutes * 60;
    let today = period_day(now, reset);
    let today_focus = completed_on(records, SessionTimeType::Focus, reset, today);
    &&& p.daily_goal_minutes == goal_minutes
    &&& p.today_completed_seconds == today_focus
    &&& p.today_rest_seconds == completed_on(records, SessionTimeType::Rest, reset, today)
    &&& p.yesterday_completed_seconds == completed_on(records, SessionTimeType::Focus, reset, today - 1)
    &&& p.today_remaining_seconds == if today_focus < goal_seconds {
        goal_seconds - today_focus
    } else {
        0
    }
    &&& is_streak(records, reset, goal_seconds, settings.include_weekends_in_streak, today - 1, p.streak_days as nat)
}

/// The reporting day of `datetime` (see `period_day`).
pub fn reset_period_date(datetime: LocalTime, daily_reset_minutes: u32) -> (d: i64)
    ensures
        d == period_day(datetime, daily_reset_minutes as int),
{
    let (day, minute) = local_day_and_minute(datetime);
    if minute < daily_reset_minutes {
        day - 1
    } else {
        day
    }
}

/// A prefix never holds more completed time than the whole list.
proof fn lemma_completed_prefix(records: Seq<SessionRecord>, t: SessionTimeType, reset: int, day: int, i: int)
    requires
        0 <= i <= records.len(),
    ensures
        completed_on(records.take(i), t, reset, day) <= completed_on(records, t, reset, day),
    decreases records.len(),
{
    if i == records.len() {
        assert(records.take(i) =~= records);
    } else {
        lemma_completed_prefix(records.drop_last(), t, reset, day, i);
        assert(records.drop_last().take(i) =~= records.take(i));
    }
}

/// Some completed record of the type ended on the reporting day.
pub open spec fn has_record_on(
    records: Seq<SessionRecord>,
    time_type: SessionTimeType,
    reset_minutes: int,
    day: int,
) -> bool {
    exists|i: int| 0 <= i < records.len() && #[trigger] counts_on(records[i], time_type, reset_minutes, day)
}

/// `m` is the by-day table of the completed records of a type: an entry for
/// each reporting day with such a record, holding their seconds together.
pub open spec fn is_day_table(
    m: Map<i64, u64>,
    records: Seq<SessionRecord>,
    time_type: SessionTimeType,
    reset_minutes: int,
) -> bool {
    forall|day: i64|
        #![trigger m.contains_key(day)]
        #![trigger m[day]]
        {
            &&& m.contains_key(day) <==> has_record_on(records, time_type, reset_minutes, day as int)
            &&& m.contains_key(day) ==> m[day] == completed_on(records, time_type, reset_minutes, day as int)
        }
}

/// The seconds a by-day table holds for a day, zero for a day it lacks.
pub open spec fn table_seconds(m: Map<i64, u64>, day: int) -> int {
    if i64::MIN <= day <= i64::MAX && m.contains_key(day as i64) {
        m[day as i64] as int
    } else {
        0
    }
}

proof fn lemma_has_record_last(records: Seq<SessionRecord>, t: SessionTimeType, reset: int, day: int)
    requires
        records.len() > 0,
    ensures
        has_record_on(records, t, reset, day) <==> has_record_on(records.drop_last(), t, reset, day)
            || counts_on(records.last(), t, reset, day),
{
    let last = records.len() - 1;
    if has_record_on(records, t, reset, day) {
        let i = choose|i: int| 0 <= i < records.len() && #[trigger] counts_on(records[i], t, reset, day);
        if i < last {
            assert(records.drop_last()[i] == records[i]);
        }
    }
    if has_record_on(records.drop_last(), t, reset, day) {
        let i = choose|i: int| 0 <= i < records.drop_last().len() && #[trigger] counts_on(records.drop_last()[i], t, reset, day);
        assert(records.drop_last()[i] == records[i]);
    }
    if counts_on(records.last(), t, reset, day) {
        assert(counts_on(records[last], t, reset, day));
    }
}

/// A day without a record of the type holds no completed time.
proof fn lemma_no_record_no_seconds(records: Seq<SessionRecord>, t: SessionTimeType, reset: int, day: int)
    requires
        !has_record_on(records, t, reset, day),
    ensures
        completed_on(records, t, reset, day) == 0,
    decreases records.len(),
{
    if records.len() > 0 {
        lemma_has_record_last(records, t, reset, day);
        lemma_no_record_no_seconds(records.drop_last(), t, reset, day);
    }
}

/// Reporting days of local date-times lie well inside the `i64` range.
proof fn lemma_period_day_bounded(t: LocalTime, reset: int)
    requires
        0 <= reset <= 1440,
    ensures
        -200_000_000_000_000 <= period_day(t, reset) <= 200_000_000_000_000,
{
    assert(i64::MIN - 2_147_483_648 <= t.local_seconds() <= i64::MAX + 2_147_483_647);
}

/// A by-day table gives every day the completed time of that day.
proof fn lemma_table_seconds(m: Map<i64, u64>, records: Seq<SessionRecord>, t: SessionTimeType, reset: int, day: int)
    requires
        is_day_table(m, records, t, reset),
        0 <= reset <= 1440,
    ensures
        table_seconds(m, day) == completed_on(records, t, reset, day),
{
    if i64::MIN <= day <= i64::MAX && m.contains_key(day as i64) {
    } else {
        if has_record_on(records, t, reset, day) {
            let i = choose|i: int| 0 <= i < records.len() && #[trigger] counts_on(records[i], t, reset, day);
            lemma_period_day_bounded(records[i].ended_at, reset);
            assert(m.contains_key(day as i64));
        }
        lemma_no_record_no_seconds(records, t, reset, day);
    }
}

/// Every day of a by-day table is a reporting day of some record.
proof fn lemma_table_days_bounded(m: Map<i64, u64>, records: Seq<SessionRecord>, t: SessionTimeType, reset: int)
    requires
        is_day_table(m, records, t, reset),
        0 <= reset <= 1440,
    ensures
        forall|day: i64| #[trigger] m.contains_key(day) ==> -200_000_000_000_000 <= day,
{
    assert forall|day: i64| #[trigger] m.contains_key(day) implies -200_000_000_000_000 <= day by {
        let i = choose|i: int| 0 <= i < records.len() && #[trigger] counts_on(records[i], t, reset, day as int);
        lemma_period_day_bounded(records[i].ended_at, reset);
    }
}

/// The completed seconds of the records of `time_type`, by reporting day.
pub fn completed_seconds_by_date(
    records: &[SessionRecord],
    time_type: SessionTimeType,
    daily_reset_minutes: u32,
) -> (by_date: HashMap<i64, u64>)
    requires
        forall|day: int| #[trigger] completed_on(records@, time_type, daily_reset_minutes as int, day) <= u64::MAX,
    ensures
        is_day_table(by_date@, records@, time_type, daily_reset_minutes as int),
{
    broadcast use vstd::std_specs::hash::group_hash_axioms;

    let ghost reset = daily_reset_minutes as int;
    let mut by_date: HashMap<i64, u64> = HashMap::new();
    let mut i: usize = 0;
    assert forall|day: i64| !has_record_on(records@.take(0), time_type, reset, day as int) by {}
    while i < records.len()
        invariant
            i <= records.len(),
            reset == daily_reset_minutes as int,
            is_day_table(by_date@, records@.take(i as int), time_type, reset),
            forall|day: int| #[trigger] completed_on(records@, time_type, reset, day) <= u64::MAX,
        decreases records.len() - i,
    {
        let record = &records[i];
        let ghost before = by_date@;
        let ghost seen = records@.take(i as int);
        let ghost next = records@.take(i + 1);
        assert(next.drop_last() =~= seen);
        assert(next.last() == records@[i as int]);
        if record.status == SessionRecordStatus::Completed && record.time_type == time_type {
            let date = reset_period_date(record.ended_at, daily_reset_minutes);
            let seconds = record.duration_seconds();
            let current: u64 = match by_date.get(&date) {
                Some(total) => *total,
                None => 0,
            };
            proof {
                if !before.contains_key(date) {
                    lemma_no_record_no_seconds(seen, time_type, reset, date as int);
                }
                assert(counts_on(next.last(), time_type, reset, date as int));
                assert(completed_on(next, time_type, reset, date as int) == current + seconds);
                lemma_completed_prefix(records@, time_type, reset, date as int, i + 1);
            }
            by_date.insert(date, current + seconds);
            proof {
                assert forall|day: i64|
                    #![trigger by_date@.contains_key(day)]
                    #![trigger by_date@[day]]
                    {
                        &&& by_date@.contains_key(day) <==> has_record_on(next, time_type, reset, day as int)
                        &&& by_date@.contains_key(day) ==> by_date@[day] == completed_on(next, time_type, reset, day as int)
                    } by {
                    lemma_has_record_last(next, time_type, reset, day as int);
                    if day != date {
                        assert(before.contains_key(day) == by_date@.contains_key(day));
                    }
                }
            }
        } else {
            proof {
                assert forall|day: i64|
                    #![trigger by_date@.contains_key(day)]
                    #![trigger by_date@[day]]
                    {
                        &&& by_date@.contains_key(day) <==> has_record_on(next, time_type, reset, day as int)
                        &&& by_date@.contains_key(day) ==> by_date@[day] == completed_on(next, time_type, reset, day as int)
                    } by {
                    lemma_has_record_last(next, time_type, reset, day as int);
                }
            }
        }
        i = i + 1;
    }
    assert(records@.take(records.len() as int) =~= records@);
    by_date
}

/// The seconds a by-day table holds for a day, zero for a day it lacks.
pub fn seconds_on(by_date: &HashMap<i64, u64>, day: i64) -> (r: u64)
    ensures
        r == table_seconds(by_date@, day as int),
{
    broadcast use vstd::std_specs::hash::group_hash_axioms;

    match by_date.get(&day) {
        Some(seconds) => *seconds,
        None => 0,
    }
}

/// `k` is the streak in a by-day table going back from `start`: the first
/// `k` counted days reached the goal and the next one did not.
pub open spec fn table_is_streak(
    m: Map<i64, u64>,
    goal_seconds: int,
    include_weekends: bool,
    start: int,
    k: nat,
) -> bool {
    &&& forall|j: nat|
        j < k ==> table_seconds(m, #[trigger] nth_counted_day(start, j, include_weekends)) >= goal_seconds
    &&& table_seconds(m, nth_counted_day(start, k, include_weekends)) < goal_seconds
}

/// The streak in a by-day table going back from `start` is at most `u32::MAX`.
pub open spec fn table_streak_fits(m: Map<i64, u64>, goal_seconds: int, include_weekends: bool, start: int) -> bool {
    exists|k: nat|
        k <= u32::MAX && table_seconds(m, #[trigger] nth_counted_day(start, k, include_weekends)) < goal_seconds
}

/// No three consecutive days are all on a weekend.
proof fn lemma_no_three_weekend_days(x: int)
    ensures
        !(is_weekend_day(x) && is_weekend_day(x + 1) && is_weekend_day(x + 2)),
{
    let w = (x + 3) % 7;
    vstd::arithmetic::div_mod::lemma_fundamental_div_mod(x + 3, 7);
    let q = (x + 3) / 7;
    if w <= 4 {
    } else if w == 5 {
        vstd::arithmetic::div_mod::lemma_fundamental_div_mod_converse(x + 5, 7, q + 1, 0);
    } else {
        vstd::arithmetic::div_mod::lemma_fundamental_div_mod_converse(x + 4, 7, q + 1, 0);
    }
}

/// Counted days strictly decrease.
proof fn lemma_nth_decreasing(start: int, n: nat, include_weekends: bool)
    ensures
        nth_counted_day(start, n + 1, include_weekends) < nth_counted_day(start, n, include_weekends),
        nth_counted_day(start, n, include_weekends) <= start,
    decreases n,
{
    if n > 0 {
        lemma_nth_decreasing(start, (n - 1) as nat, include_weekends);
    }
}

/// Days strictly decrease along the counted days.
proof fn lemma_nth_strictly_decreasing(start: int, i: nat, j: nat, include_weekends: bool)
    requires
        i < j,
    ensures
        nth_counted_day(start, j, include_weekends) < nth_counted_day(start, i, include_weekends),
    decreases j - i,
{
    lemma_nth_decreasing(start, (j - 1) as nat, include_weekends);
    if i + 1 < j {
        lemma_nth_strictly_decreasing(start, i, (j - 1) as nat, include_weekends);
    }
}

/// Counts the days, going back from `yesterday`, whose completed focus met the
/// goal, stopping at the first counted day that did not; weekends are
/// skipped unless they count.
pub fn streak_days_from_yesterday(
    completed_by_date: &HashMap<i64, u64>,
    yesterday: i64,
    goal_seconds: u64,
    include_weekends: bool,
) -> (r: u32)
    requires
        goal_seconds > 0,
        i64::MIN + 3 <= yesterday,
        forall|day: i64| #[trigger] completed_by_date@.contains_key(day) ==> i64::MIN + 3 <= day,
        table_streak_fits(completed_by_date@, goal_seconds as int, include_weekends, yesterday as int),
    ensures
        table_is_streak(completed_by_date@, goal_seconds as int, include_weekends, yesterday as int, r as nat),
{
    let ghost m = completed_by_date@;
    let ghost start = yesterday as int;
    let ghost lo: int = i64::MIN + 3;
    let mut streak: u32 = 0;
    let mut date: i64 = yesterday;
    loop
        invariant
            goal_seconds > 0,
            m == completed_by_date@,
            forall|day: i64| #[trigger] m.contains_key(day) ==> lo <= day,
            table_streak_fits(m, goal_seconds as int, include_weekends, start),
            lo == i64::MIN + 3,
            start == yesterday as int,
            counted_day_at_or_before(date as int, include_weekends) == nth_counted_day(start, streak as nat, include_weekends),
            forall|j: nat| j < streak ==> table_seconds(m, #[trigger] nth_counted_day(start, j, include_weekends)) >= goal_seconds,
            date >= lo || (forall|d: int| date < d < lo ==> !include_weekends && #[trigger] is_weekend_day(d)),
            date >= lo - 3,
        ensures
            table_is_streak(m, goal_seconds as int, include_weekends, start, streak as nat),
        decreases date - lo + 3,
    {
        if !include_weekends && is_weekend(date) {
            proof {
                assert(counted_day_at_or_before(date - 1, include_weekends) == counted_day_at_or_before(date as int, include_weekends));
                if date < lo {
                    assert(is_weekend_day(date as int));
                    if date == lo - 3 {
                        assert(is_weekend_day(lo - 1));
                        assert(is_weekend_day(lo - 2));
                        lemma_no_three_weekend_days(date as int);
                    }
                    assert forall|d: int| date - 1 < d < lo implies #[trigger] is_weekend_day(d) by {
                        if d > date {
                            assert(is_weekend_day(d));
                        }
                    }
                } else {
                    assert forall|d: int| date - 1 < d < lo implies #[trigger] is_weekend_day(d) by {
                        assert(false);
                    }
                }
            }
            date = date - 1;
            continue;
        }
        let seconds = seconds_on(completed_by_date, date);
        if seconds < goal_seconds {
            break;
        }
        proof {
            assert(m.contains_key(date));
            let k = choose|k: nat| k <= u32::MAX && table_seconds(m, #[trigger] nth_counted_day(start, k, include_weekends)) < goal_seconds;
            if k <= streak {
                if k < streak {
                    assert(table_seconds(m, nth_counted_day(start, k, include_weekends)) >= goal_seconds);
                }
                assert(false);
            }
            assert forall|j: nat| j < streak + 1 implies table_seconds(m, #[trigger] nth_counted_day(start, j, include_weekends)) >= goal_seconds by {
                if j == streak {
                    assert(date as int == nth_counted_day(start, j, include_weekends));
                }
            }
        }
        streak = streak + 1;
        date = date - 1;
        assert(date >= lo || (forall|d: int| date < d < lo ==> !include_weekends && #[trigger] is_weekend_day(d)));
    }
    streak
}

/// The progress report for the reporting day that contains `now`.
pub fn daily_progress_at(records: &[SessionRecord], settings: &Settings, now: LocalTime) -> (p: DailyProgress)
    requires
        progress_fits(records@, *settings, now),
    ensures
        progress_model(records@, *settings, now, p),
{
    let daily_goal_minutes = clamp_u32(settings.daily_goal_minutes, 1, 720);
    let daily_reset_minutes = if settings.daily_reset_minutes > LAST_RESET_MINUTE {
        LAST_RESET_MINUTE
    } else {
        settings.daily_reset_minutes
    };
    let ghost reset = daily_reset_minutes as int;
    let goal_seconds = daily_goal_minutes as u64 * 60;
    let today = reset_period_date(now, daily_reset_minutes);
    proof {
        lemma_period_day_bounded(now, reset);
    }
    let yesterday = today - 1;
    let focus_completed_by_date = completed_seconds_by_date(records, SessionTimeType::Focus, daily_reset_minutes);
    let rest_completed_by_date = completed_seconds_by_date(records, SessionTimeType::Rest, daily_reset_minutes);
    let ghost focus = focus_completed_by_date@;
    proof {
        assert forall|day: int| #[trigger] table_seconds(focus, day) == completed_on(records@, SessionTimeType::Focus, reset, day) by {
            lemma_table_seconds(focus, records@, SessionTimeType::Focus, reset, day);
        }
        lemma_table_seconds(rest_completed_by_date@, records@, SessionTimeType::Rest, reset, today as int);
        lemma_table_days_bounded(focus, records@, SessionTimeType::Focus, reset);
        let k = choose|k: nat|
            k <= u32::MAX && !met_goal(records@, reset, goal_seconds as int, #[trigger] nth_counted_day(yesterday as int, k, settings.include_weekends_in_streak));
        assert(table_seconds(focus, nth_counted_day(yesterday as int, k, settings.include_weekends_in_streak)) < goal_seconds);
    }
    let today_completed_seconds = seconds_on(&focus_completed_by_date, today);
    let today_rest_seconds = seconds_on(&rest_completed_by_date, today);
    let yesterday_completed_seconds = seconds_on(&focus_completed_by_date, yesterday);
    let today_remaining_seconds = goal_seconds.saturating_sub(today_completed_seconds);
    let streak_days = streak_days_from_yesterday(
        &focus_completed_by_date,
        yesterday,
        goal_seconds,
        settings.include_weekends_in_streak,
    );
    DailyProgress {
        daily_goal_minutes,
        yesterday_completed_seconds,
        today_completed_seconds,
        today_rest_seconds,
        today_remaining_seconds,
        streak_days,
    }
}

/// Completed time on a day implies some record of that reporting day.
proof fn lemma_time_has_record(records: Seq<SessionRecord>, t: SessionTimeType, reset: int, day: int)
    requires
        completed_on(records, t, reset, day) > 0,
    ensures
        exists|i: int| 0 <= i < records.len() && period_day(#[trigger] records[i].ended_at, reset) == day,
    decreases records.len(),
{
    let last = records.len() - 1;
    if counts_on(records.last(), t, reset, day) {
        assert(period_day(records[last].ended_at, reset) == day);
    } else {
        lemma_time_has_record(records.drop_last(), t, reset, day);
        let i = choose|i: int| 0 <= i < records.drop_last().len() && period_day(#[trigger] records.drop_last()[i].ended_at, reset) == day;
        assert(records.drop_last()[i] == records[i]);
    }
}

/// A streak never outnumbers the records: each of its days needs a
/// completed focus record of that reporting day. So with at most `u32::MAX`
/// records, every streak fits in a `u32`.
pub proof fn lemma_streak_fits(
    records: Seq<SessionRecord>,
    reset_minutes: int,
    goal_seconds: int,
    include_weekends: bool,
    start: int,
)
    requires
        records.len() <= u32::MAX,
        goal_seconds > 0,
    ensures
        streak_fits(records, reset_minutes, goal_seconds, include_weekends, start),
{
    broadcast use vstd::seq_lib::seq_to_set_is_finite;

    let m: nat = u32::MAX as nat;
    if !streak_fits(records, reset_minutes, goal_seconds, include_weekends, start) {
        let days = Seq::new(m + 1, |j: int| nth_counted_day(start, j as nat, include_weekends));
        assert(days.no_duplicates()) by {
            assert forall|i: int, j: int| 0 <= i < days.len() && 0 <= j < days.len() && i != j implies days[i] != days[j] by {
                if i < j {
                    lemma_nth_strictly_decreasing(start, i as nat, j as nat, include_weekends);
                } else {
                    lemma_nth_strictly_decreasing(start, j as nat, i as nat, include_weekends);
                }
            }
        }
        days.unique_seq_to_set();
        let record_days = records.map_values(|r: SessionRecord| period_day(r.ended_at, reset_minutes));
        record_days.lemma_cardinality_of_set();
        assert(days.to_set().subset_of(record_days.to_set())) by {
            assert forall|d: int| days.to_set().contains(d) implies record_days.to_set().contains(d) by {
                let j = choose|j: int| 0 <= j < days.len() && days[j] == d;
                let n = j as nat;
                assert(n <= m);
                assert(met_goal(records, reset_minutes, goal_seconds, nth_counted_day(start, n, include_weekends)));
                lemma_time_has_record(records, SessionTimeType::Focus, reset_minutes, d);
                let i = choose|i: int| 0 <= i < records.len() && period_day(#[trigger] records[i].ended_at, reset_minutes) == d;
                assert(record_days[i] == d);
            }
        }
        vstd::set_lib::lemma_len_subset(days.to_set(), record_days.to_set());
    }
}

/// What `daily_progress` needs whatever the time: the per-day totals fit in
/// `u64` and every streak fits in `u32`.
pub open spec fn progress_fits_always(records: Seq<SessionRecord>, settings: Settings) -> bool {
    &&& sums_fit(records, reset_minutes_of(settings))
    &&& forall|start: int|
        #[trigger] streak_fits(
            records,
            reset_minutes_of(settings),
            goal_minutes_of(settings) * 60,
            settings.include_weekends_in_streak,
            start,
        )
}

/// The progress report for the reporting day that contains the current time.
pub fn daily_progress(records: &[SessionRecord], settings: &Settings) -> (p: DailyProgress)
    requires
        progress_fits_always(records@, *settings),
    ensures
        exists|now: LocalTime| now.valid() && progress_model(records@, *settings, now, p),
{
    let now = local_now();
    proof {
        assert(streak_fits(
            records@,
            reset_minutes_of(*settings),
            goal_minutes_of(*settings) * 60,
            settings.include_weekends_in_streak,
            yesterday_of(*settings, now),
        ));
    }
    daily_progress_at(records, settings, now)
}

/// Seconds of all records together.
pub open spec fn total_seconds(records: Seq<SessionRecord>) -> int
    decreases records.len(),
{
    if records.len() == 0 {
        0
    } else {
        total_seconds(records.drop_last()) + records.last().actual_seconds
    }
}

proof fn lemma_completed_within_total(records: Seq<SessionRecord>, t: SessionTimeType, reset: int, day: int)
    ensures
        completed_on(records, t, reset, day) <= total_seconds(records),
    decreases records.len(),
{
    if records.len() > 0 {
        lemma_completed_within_total(records.drop_last(), t, reset, day);
    }
}

/// A prefix never holds more seconds than the whole list.
proof fn lemma_total_prefix(records: Seq<SessionRecord>, i: int)
    requires
        0 <= i <= records.len(),
    ensures
        total_seconds(records.take(i)) <= total_seconds(records),
    decreases records.len(),
{
    if i == records.len() {
        assert(records.take(i) =~= records);
    } else {
        lemma_total_prefix(records.drop_last(), i);
        assert(records.drop_last().take(i) =~= records.take(i));
    }
}

/// Whether the records can be summarised whatever the time: at most
/// `u32::MAX` of them, and all their seconds together within `u64`.
pub fn progress_inputs_fit(records: &[SessionRecord], settings: &Settings) -> (r: bool)
    ensures
        r == (records@.len() <= u32::MAX && total_seconds(records@) <= u64::MAX),
        r ==> progress_fits_always(records@, *settings),
{
    if records.len() > u32::MAX as usize {
        return false;
    }
    let mut total: u64 = 0;
    let mut i: usize = 0;
    assert(records@.take(0) =~= Seq::<SessionRecord>::empty());
    while i < records.len()
        invariant
            i <= records@.len(),
            total == total_seconds(records@.take(i as int)),
        decreases records@.len() - i,
    {
        proof {
            assert(records@.take(i + 1).drop_last() =~= records@.take(i as int));
        }
        match total.checked_add(records[i].actual_seconds) {
            Some(t) => total = t,
            None => {
                proof {
                    lemma_total_prefix(records@, i + 1);
                }
                return false;
            },
        }
        i = i + 1;
    }
    assert(records@.take(records@.len() as int) =~= records@);
    proof {
        let reset = reset_minutes_of(*settings);
        assert forall|t: SessionTimeType, day: int| #[trigger] completed_on(records@, t, reset, day) <= u64::MAX by {
            lemma_completed_within_total(records@, t, reset, day);
        }
        assert forall|start: int|
            #[trigger] streak_fits(
                records@,
                reset,
                goal_minutes_of(*settings) * 60,
                settings.include_weekends_in_streak,
                start,
            ) by {
            lemma_streak_fits(records@, reset, goal_minutes_of(*settings) * 60, settings.include_weekends_in_streak, start);
        }
    }
    true
}

} // verus!
