//! User settings and the rules that normalise them.

use vstd::prelude::*;
use crate::domain::SessionRecord;
use crate::text::push_text;
use crate::time::{chrono_formatted, format_local_time};

verus! {

/// The latest daily reset time, 23:59, in minutes after midnight.
pub const LAST_RESET_MINUTE: u32 = 1439u32;

#[derive(Clone, Copy, Debug, PartialEq, Eq, Structural)]
pub struct Settings {
    pub daily_goal_minutes: u32,
    pub daily_reset_minutes: u32,
    pub include_weekends_in_streak: bool,
    pub focus_minutes: u32,
    pub rest_minutes: u32,
    pub skip_rest: bool,
}

impl Default for Settings {
    /// A four-hour daily goal reset at midnight, weekends counted, 30 minutes
    /// of focus and 5 of rest.
    fn default() -> (s: Settings)
        ensures
            s == (Settings {
                daily_goal_minutes: 240,
                daily_reset_minutes: 0,
                include_weekends_in_streak: true,
                focus_minutes: 30,
                rest_minutes: 5,
                skip_rest: false,
            }),
    {
        Settings {
            daily_goal_minutes: 240,
            daily_reset_minutes: 0,
            include_weekends_in_streak: true,
            focus_minutes: 30,
            rest_minutes: 5,
            skip_rest: false,
        }
    }
}

pub open spec fn clamp_spec(x: int, lo: int, hi: int) -> int {
    if x < lo {
        lo
    } else if x > hi {
        hi
    } else {
        x
    }
}

/// `x` clamped to `lo..=hi`.
pub fn clamp_u32(x: u32, lo: u32, hi: u32) -> (r: u32)
    requires
        lo <= hi,
    ensures
        r == clamp_spec(x as int, lo as int, hi as int),
{
    if x < lo {
        lo
    } else if x > hi {
        hi
    } else {
        x
    }
}

/// A goal rounded to the nearest whole hour, between one and twelve hours.
pub open spec fn round_goal_spec(minutes: int) -> int {
    clamp_spec((minutes + 30) / 60, 1, 12) * 60
}

/// Rounds a goal in minutes to the nearest whole hour (half hours up),
/// keeping it between 1 and 12 hours.
pub fn round_goal_to_hours(minutes: u32) -> (r: u32)
    requires
        minutes + 30 <= u32::MAX,
    ensures
        r == round_goal_spec(minutes as int),
{
    let hours = clamp_u32((minutes + 30) / 60, 1, 12);
    hours * 60
}

/// A reset time of at most 23:59.
pub fn normalize_daily_reset_minutes(minutes: u32) -> (r: u32)
    ensures
        r == if minutes > LAST_RESET_MINUTE {
            LAST_RESET_MINUTE
        } else {
            minutes
        },
{
    if minutes > LAST_RESET_MINUTE {
        LAST_RESET_MINUTE
    } else {
        minutes
    }
}

/// The value a stored file gets when it names no weekend rule.
pub fn default_include_weekends_in_streak() -> (r: bool)
    ensures
        r,
{
    true
}

/// The focus length a stored file gets when it names none.
pub fn default_focus_minutes() -> (r: u32)
    ensures
        r == 30,
{
    30
}

/// The rest length a stored file gets when it names none.
pub fn default_rest_minutes() -> (r: u32)
    ensures
        r == 5,
{
    5
}

/// Rest minutes as stored: none when rest is skipped, else 1..=120.
pub open spec fn rest_minutes_spec(rest_minutes: u32, skip_rest: bool) -> u32 {
    if skip_rest {
        0
    } else {
        clamp_spec(rest_minutes as int, 1, 120) as u32
    }
}

/// Settings as read from disk, normalised: the goal rounded to whole hours
/// within 1..=12 hours, the reset time at most 23:59, focus within 1..=720
/// minutes and rest as `rest_minutes_spec` says.
pub open spec fn loaded_settings_spec(s: Settings) -> Settings {
    Settings {
        daily_goal_minutes: clamp_spec(round_goal_spec(s.daily_goal_minutes as int), 60, 720) as u32,
        daily_reset_minutes: if s.daily_reset_minutes > LAST_RESET_MINUTE {
            LAST_RESET_MINUTE
        } else {
            s.daily_reset_minutes
        },
        include_weekends_in_streak: s.include_weekends_in_streak,
        focus_minutes: clamp_spec(s.focus_minutes as int, 1, 720) as u32,
        rest_minutes: rest_minutes_spec(s.rest_minutes, s.skip_rest),
        skip_rest: s.skip_rest,
    }
}

/// Normalises settings read from disk (see `loaded_settings_spec`).
pub fn normalize_loaded_settings(settings: Settings) -> (r: Settings)
    requires
        settings.daily_goal_minutes + 30 <= u32::MAX,
    ensures
        r == loaded_settings_spec(settings),
{
    let mut s = settings;
    s.daily_goal_minutes = clamp_u32(round_goal_to_hours(s.daily_goal_minutes), 60, 720);
    s.daily_reset_minutes = normalize_daily_reset_minutes(s.daily_reset_minutes);
    s.focus_minutes = clamp_u32(s.focus_minutes, 1, 720);
    s.rest_minutes = if s.skip_rest {
        0
    } else {
        clamp_u32(s.rest_minutes, 1, 120)
    };
    s
}

/// New focus preferences: focus within 1..=720 minutes and rest as
/// `rest_minutes_spec` says; returns the updated settings.
pub fn update_focus_preferences(settings: Settings, focus_minutes: u32, rest_minutes: u32, skip_rest: bool) -> (r: Settings)
    ensures
        r == (Settings {
            focus_minutes: clamp_spec(focus_minutes as int, 1, 720) as u32,
            rest_minutes: rest_minutes_spec(rest_minutes, skip_rest),
            skip_rest,
            ..settings
        }),
{
    let mut s = settings;
    s.focus_minutes = clamp_u32(focus_minutes, 1, 720);
    s.rest_minutes = if skip_rest {
        0
    } else {
        clamp_u32(rest_minutes, 1, 120)
    };
    s.skip_rest = skip_rest;
    s
}

/// A new daily goal: rounded to whole hours, reset time at most 23:59;
/// returns the updated settings.
pub fn update_daily_goal(
    settings: Settings,
    daily_goal_minutes: u32,
    daily_reset_minutes: u32,
    include_weekends_in_streak: bool,
) -> (r: Settings)
    requires
        daily_goal_minutes + 30 <= u32::MAX,
    ensures
        r == (Settings {
            daily_goal_minutes: round_goal_spec(daily_goal_minutes as int) as u32,
            daily_reset_minutes: if daily_reset_minutes > LAST_RESET_MINUTE {
                LAST_RESET_MINUTE
            } else {
                daily_reset_minutes
            },
            include_weekends_in_streak,
            ..settings
        }),
{
    let mut s = settings;
    s.daily_goal_minutes = round_goal_to_hours(daily_goal_minutes);
    s.daily_reset_minutes = normalize_daily_reset_minutes(daily_reset_minutes);
    s.include_weekends_in_streak = include_weekends_in_streak;
    s
}

/// The monthly log file of a record: `YYYY-MM.jsonl` after the month in which
/// it started.
pub open spec fn session_file_name_text(r: SessionRecord) -> Seq<char> {
    chrono_formatted(r.started_at.secs, r.started_at.nanos, r.started_at.offset_seconds, "%Y-%m"@)
        + ".jsonl"@
}

pub fn session_file_name(record: &SessionRecord) -> (r: String)
    requires
        record.started_at.valid(),
    ensures
        r@ == session_file_name_text(*record),
{
    let mut name = format_local_time(record.started_at, "%Y-%m");
    push_text(&mut name, ".jsonl");
    name
}

} // verus!
