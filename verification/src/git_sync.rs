//! Git synchronisation of the session logs: commit messages, error texts,
//! the sync queue, the helper's arguments and the steps of one sync run.

use vstd::prelude::*;
use crate::domain::{SessionRecord, SessionRecordStatus, SessionTimeType};
use crate::text::{
    chars_of, decimal, eq_ignore_ascii_case, owned, push_decimal, push_text, replace_chars,
    replaced, text_eq_ignore_ascii_case, text_of, trim, trimmed,
};
use crate::text::{
    joined_lines, lemma_decimal_no_line_break, lemma_no_line_break_add, lemma_split_joined,
    no_line_break, split_lines,
};
use crate::time::{LocalTime, chrono_formatted, format_local_time, is_stamp_char, local_time_is_valid};

verus! {

pub const SYNC_DIR_NAME: &'static str = "focustrail-records";
pub const SYNC_SESSIONS_DIR: &'static str = "sessions";
pub const SYNC_RECORDS_PATHSPEC: &'static str = "focustrail-records/sessions";
pub const SYNC_JSONL_PATHSPEC: &'static str = ":(glob)focustrail-records/sessions/*.jsonl";
pub const COMMIT_MESSAGE: &'static str = "Sync FocusTrail records";
pub const SYNC_HELPER_ARG: &'static str = "--focustrail-git-sync";

/// How a sync is run: by a background worker thread, or by a detached helper
/// process (used when the application exits).
#[derive(Clone, Copy, Debug, PartialEq, Eq, Structural)]
pub enum SyncMode {
    Background,
    Detached,
}

/// What one sync run needs.
#[derive(Clone, Debug)]
pub struct SyncRequest {
    pub sessions_dir: String,
    pub repo_path: String,
    pub log_path: String,
    pub commit_body: String,
}

#[derive(Clone, Copy, Debug, PartialEq, Eq, Structural)]
pub enum SyncOutcome {
    Pushed,
    NoChanges,
    SkippedDirty,
}

pub open spec fn time_type_text(t: SessionTimeType) -> Seq<char> {
    match t {
        SessionTimeType::Focus => "focus"@,
        SessionTimeType::Rest => "rest"@,
    }
}

pub open spec fn status_text(s: SessionRecordStatus) -> Seq<char> {
    match s {
        SessionRecordStatus::Completed => "completed"@,
        SessionRecordStatus::Cancelled => "cancelled"@,
    }
}

pub fn time_type_label(time_type: SessionTimeType) -> (r: &'static str)
    ensures
        r@ == time_type_text(time_type),
{
    match time_type {
        SessionTimeType::Focus => "focus",
        SessionTimeType::Rest => "rest",
    }
}

pub fn status_label(status: SessionRecordStatus) -> (r: &'static str)
    ensures
        r@ == status_text(status),
{
    match status {
        SessionRecordStatus::Completed => "completed",
        SessionRecordStatus::Cancelled => "cancelled",
    }
}

/// "N min".
pub open spec fn minutes_text(minutes: nat) -> Seq<char> {
    decimal(minutes) + " min"@
}

pub fn minutes_label(minutes: u32) -> (r: String)
    ensures
        r@ == minutes_text(minutes as nat),
{
    let mut s = String::new();
    push_decimal(&mut s, minutes as u64);
    push_text(&mut s, " min");
    assert(s@ =~= minutes_text(minutes as nat));
    s
}

/// "H h M min S sec", dropping the leading units that are zero.
pub open spec fn seconds_text(seconds: nat) -> Seq<char> {
    let hours = seconds / 3600;
    let minutes = (seconds % 3600) / 60;
    let secs = seconds % 60;
    if hours > 0 {
        decimal(hours) + " h "@ + decimal(minutes) + " min "@ + decimal(secs) + " sec"@
    } else if minutes > 0 {
        decimal(minutes) + " min "@ + decimal(secs) + " sec"@
    } else {
        decimal(secs) + " sec"@
    }
}

pub fn seconds_label(seconds: u64) -> (r: String)
    ensures
        r@ == seconds_text(seconds as nat),
{
    let hours = seconds / 3600;
    let minutes = (seconds % 3600) / 60;
    let secs = seconds % 60;
    let mut s = String::new();
    if hours > 0 {
        push_decimal(&mut s, hours);
        push_text(&mut s, " h ");
        push_decimal(&mut s, minutes);
        push_text(&mut s, " min ");
        push_decimal(&mut s, secs);
        push_text(&mut s, " sec");
    } else if minutes > 0 {
        push_decimal(&mut s, minutes);
        push_text(&mut s, " min ");
        push_decimal(&mut s, secs);
        push_text(&mut s, " sec");
    } else {
        push_decimal(&mut s, secs);
        push_text(&mut s, " sec");
    }
    assert(s@ =~= seconds_text(seconds as nat));
    s
}

/// The pattern in which commit messages render times.
pub open spec fn stamp_pattern() -> Seq<char> {
    "%Y-%m-%d %H:%M:%S %:z"@
}

/// Times of a record that chrono can render.
pub open spec fn record_times_valid(r: SessionRecord) -> bool {
    r.started_at.valid() && r.ended_at.valid()
}

/// The commit-message line of one record.
pub open spec fn record_line(r: SessionRecord) -> Seq<char> {
    "- "@ + time_type_text(r.time_type) + " "@ + status_text(r.status) + ": planned "@ + minutes_text(
        r.planned_minutes as nat,
    ) + ", actual "@ + seconds_text(r.actual_seconds as nat) + ", "@ + chrono_formatted(
        r.started_at.secs,
        r.started_at.nanos,
        r.started_at.offset_seconds,
        stamp_pattern(),
    ) + " -> "@ + chrono_formatted(
        r.ended_at.secs,
        r.ended_at.nanos,
        r.ended_at.offset_seconds,
        stamp_pattern(),
    )
}

/// A commit line holds no line break when the two rendered times hold none.
proof fn lemma_record_line_no_break(r: SessionRecord)
    requires
        no_line_break(
            chrono_formatted(r.started_at.secs, r.started_at.nanos, r.started_at.offset_seconds, stamp_pattern()),
        ),
        no_line_break(
            chrono_formatted(r.ended_at.secs, r.ended_at.nanos, r.ended_at.offset_seconds, stamp_pattern()),
        ),
    ensures
        no_line_break(record_line(r)),
{
    reveal_strlit("- ");
    reveal_strlit(" ");
    reveal_strlit(": planned ");
    reveal_strlit(", actual ");
    reveal_strlit(", ");
    reveal_strlit(" -> ");
    reveal_strlit(" min");
    reveal_strlit(" h ");
    reveal_strlit(" min ");
    reveal_strlit(" sec");
    reveal_strlit("focus");
    reveal_strlit("rest");
    reveal_strlit("completed");
    reveal_strlit("cancelled");
    let planned = r.planned_minutes as nat;
    let actual = r.actual_seconds as nat;
    lemma_decimal_no_line_break(planned);
    lemma_decimal_no_line_break(actual / 3600);
    lemma_decimal_no_line_break((actual % 3600) / 60);
    lemma_decimal_no_line_break(actual % 60);
    lemma_no_line_break_add(decimal(planned), " min"@);
    let h = decimal(actual / 3600);
    let m = decimal((actual % 3600) / 60);
    let sec = decimal(actual % 60);
    lemma_no_line_break_add(h, " h "@);
    lemma_no_line_break_add(h + " h "@, m);
    lemma_no_line_break_add(h + " h "@ + m, " min "@);
    lemma_no_line_break_add(h + " h "@ + m + " min "@, sec);
    lemma_no_line_break_add(h + " h "@ + m + " min "@ + sec, " sec"@);
    lemma_no_line_break_add(m, " min "@);
    lemma_no_line_break_add(m + " min "@, sec);
    lemma_no_line_break_add(m + " min "@ + sec, " sec"@);
    lemma_no_line_break_add(sec, " sec"@);
    let tt = time_type_text(r.time_type);
    let st = status_text(r.status);
    let f1 = chrono_formatted(r.started_at.secs, r.started_at.nanos, r.started_at.offset_seconds, stamp_pattern());
    let f2 = chrono_formatted(r.ended_at.secs, r.ended_at.nanos, r.ended_at.offset_seconds, stamp_pattern());
    let a1 = "- "@ + tt;
    lemma_no_line_break_add("- "@, tt);
    lemma_no_line_break_add(a1, " "@);
    lemma_no_line_break_add(a1 + " "@, st);
    let a2 = a1 + " "@ + st;
    lemma_no_line_break_add(a2, ": planned "@);
    lemma_no_line_break_add(a2 + ": planned "@, minutes_text(planned));
    let a3 = a2 + ": planned "@ + minutes_text(planned);
    lemma_no_line_break_add(a3, ", actual "@);
    lemma_no_line_break_add(a3 + ", actual "@, seconds_text(actual));
    let a4 = a3 + ", actual "@ + seconds_text(actual);
    lemma_no_line_break_add(a4, ", "@);
    lemma_no_line_break_add(a4 + ", "@, f1);
    lemma_no_line_break_add(a4 + ", "@ + f1, " -> "@);
    lemma_no_line_break_add(a4 + ", "@ + f1 + " -> "@, f2);
}

/// A rendered time holds no line break.
proof fn lemma_stamp_no_break(s: Seq<char>)
    requires
        forall|i: int| 0 <= i < s.len() ==> is_stamp_char(#[trigger] s[i]),
    ensures
        no_line_break(s),
{
}

pub fn commit_record_line(record: &SessionRecord) -> (r: String)
    requires
        record_times_valid(*record),
    ensures
        r@ == record_line(*record),
        no_line_break(r@),
{
    let pattern = "%Y-%m-%d %H:%M:%S %:z";
    let mut s = owned("- ");
    push_text(&mut s, time_type_label(record.time_type));
    push_text(&mut s, " ");
    push_text(&mut s, status_label(record.status));
    push_text(&mut s, ": planned ");
    let m = minutes_label(record.planned_minutes);
    push_text(&mut s, m.as_str());
    push_text(&mut s, ", actual ");
    let a = seconds_label(record.actual_seconds);
    push_text(&mut s, a.as_str());
    push_text(&mut s, ", ");
    let started = format_local_time(record.started_at, pattern);
    push_text(&mut s, started.as_str());
    push_text(&mut s, " -> ");
    let ended = format_local_time(record.ended_at, pattern);
    push_text(&mut s, ended.as_str());
    assert(s@ =~= record_line(*record));
    proof {
        lemma_stamp_no_break(started@);
        lemma_stamp_no_break(ended@);
        lemma_record_line_no_break(*record);
    }
    s
}

/// Whether every record's times can be rendered.
pub fn record_times_printable(records: &[SessionRecord]) -> (r: bool)
    ensures
        r == forall|i: int| 0 <= i < records@.len() ==> record_times_valid(#[trigger] records@[i]),
{
    let mut i: usize = 0;
    while i < records.len()
        invariant
            i <= records@.len(),
            forall|k: int| 0 <= k < i ==> record_times_valid(#[trigger] records@[k]),
        decreases records@.len() - i,
    {
        if !(local_time_is_valid(records[i].started_at) && local_time_is_valid(records[i].ended_at)) {
            return false;
        }
        i = i + 1;
    }
    true
}

/// The record lines, each after a line break.
pub open spec fn record_lines(records: Seq<SessionRecord>) -> Seq<char>
    decreases records.len(),
{
    if records.len() == 0 {
        Seq::empty()
    } else {
        record_lines(records.drop_last()) + "\n"@ + record_line(records.last())
    }
}

/// The commit message body: a heading line, one line per record and a
/// closing note.
pub open spec fn commit_body_text(records: Seq<SessionRecord>) -> Seq<char> {
    "FocusTrail session records:"@ + record_lines(records) + "\n"@
        + "Only FocusTrail *.jsonl record files are synchronized."@
}

/// The lines of a commit message body: the heading, one line per record in
/// order, and the closing note.
pub open spec fn commit_lines(records: Seq<SessionRecord>) -> Seq<Seq<char>> {
    seq!["FocusTrail session records:"@] + records.map_values(|r: SessionRecord| record_line(r)) + seq![
        "Only FocusTrail *.jsonl record files are synchronized."@,
    ]
}

/// The heading followed by the record lines is those lines joined.
proof fn lemma_record_lines_joined(records: Seq<SessionRecord>)
    ensures
        "FocusTrail session records:"@ + record_lines(records) == joined_lines(
            seq!["FocusTrail session records:"@] + records.map_values(|r: SessionRecord| record_line(r)),
        ),
    decreases records.len(),
{
    reveal_strlit("\n");
    let h = "FocusTrail session records:"@;
    let ls = seq![h] + records.map_values(|r: SessionRecord| record_line(r));
    if records.len() == 0 {
        assert(ls =~= seq![h]);
        assert(h + record_lines(records) =~= h);
    } else {
        let front = records.drop_last();
        lemma_record_lines_joined(front);
        assert(ls.drop_last() =~= seq![h] + front.map_values(|r: SessionRecord| record_line(r)));
        assert(ls.last() == record_line(records.last()));
        assert(h + record_lines(records) =~= (h + record_lines(front)) + seq!['\n'] + record_line(records.last()));
    }
}

/// The commit body is its lines joined with line breaks.
proof fn lemma_commit_body_joined(records: Seq<SessionRecord>)
    ensures
        commit_body_text(records) == joined_lines(commit_lines(records)),
{
    reveal_strlit("\n");
    lemma_record_lines_joined(records);
    let h = "FocusTrail session records:"@;
    let ls = seq![h] + records.map_values(|r: SessionRecord| record_line(r));
    let c = "Only FocusTrail *.jsonl record files are synchronized."@;
    assert(commit_lines(records).drop_last() =~= ls);
    assert(commit_body_text(records) =~= joined_lines(ls) + seq!['\n'] + c);
}

pub fn build_commit_body(records: &[SessionRecord]) -> (r: String)
    requires
        forall|i: int| 0 <= i < records@.len() ==> record_times_valid(#[trigger] records@[i]),
    ensures
        r@ == commit_body_text(records@),
        split_lines(r@) == commit_lines(records@),
{
    let mut s = owned("FocusTrail session records:");
    let mut i: usize = 0;
    assert(records@.take(0) =~= Seq::<SessionRecord>::empty());
    while i < records.len()
        invariant
            i <= records@.len(),
            forall|k: int| 0 <= k < records@.len() ==> record_times_valid(#[trigger] records@[k]),
            forall|k: int| 0 <= k < i ==> no_line_break(record_line(#[trigger] records@[k])),
            s@ == "FocusTrail session records:"@ + record_lines(records@.take(i as int)),
        decreases records@.len() - i,
    {
        push_text(&mut s, "\n");
        let line = commit_record_line(&records[i]);
        push_text(&mut s, line.as_str());
        proof {
            assert(records@.take(i + 1).drop_last() =~= records@.take(i as int));
            assert(records@.take(i + 1).last() == records@[i as int]);
        }
        i = i + 1;
        assert(s@ =~= "FocusTrail session records:"@ + record_lines(records@.take(i as int)));
    }
    assert(records@.take(records@.len() as int) =~= records@);
    push_text(&mut s, "\n");
    push_text(&mut s, "Only FocusTrail *.jsonl record files are synchronized.");
    assert(s@ =~= commit_body_text(records@));
    proof {
        reveal_strlit("FocusTrail session records:");
        reveal_strlit("Only FocusTrail *.jsonl record files are synchronized.");
        let lines = commit_lines(records@);
        assert forall|k: int| 0 <= k < lines.len() implies no_line_break(#[trigger] lines[k]) by {
            if 1 <= k < lines.len() - 1 {
                assert(lines[k] == record_line(records@[k - 1]));
            }
        }
        lemma_commit_body_joined(records@);
        lemma_split_joined(lines);
    }
    s
}

/// An error text with the local sessions directory and the repository path
/// masked (each only when not empty).
pub open spec fn sanitized(error: Seq<char>, sessions_dir: Seq<char>, repo_path: Seq<char>) -> Seq<char> {
    let first = if sessions_dir.len() > 0 {
        replaced(error, sessions_dir, "<local-sessions>"@)
    } else {
        error
    };
    if repo_path.len() > 0 {
        replaced(first, repo_path, "<sync-repo>"@)
    } else {
        first
    }
}

fn replace_text(t: &str, pat: &str, rep: &str) -> (r: String)
    requires
        pat@.len() > 0,
    ensures
        r@ == replaced(t@, pat@, rep@),
{
    let tc = chars_of(t);
    let pc = chars_of(pat);
    let rc = chars_of(rep);
    let out = replace_chars(tc.as_slice(), pc.as_slice(), rc.as_slice());
    text_of(out.as_slice())
}

pub fn sanitize_sync_error(error: &str, request: &SyncRequest) -> (r: String)
    ensures
        r@ == sanitized(error@, request.sessions_dir@, request.repo_path@),
{
    let mut message = owned(error);
    if !request.sessions_dir.as_str().is_empty() {
        message = replace_text(message.as_str(), request.sessions_dir.as_str(), "<local-sessions>");
    }
    if !request.repo_path.as_str().is_empty() {
        message = replace_text(message.as_str(), request.repo_path.as_str(), "<sync-repo>");
    }
    message
}

/// The text `String::from_utf8_lossy` decodes from bytes (invalid sequences
/// becoming U+FFFD).
pub uninterp spec fn lossy_utf8(bytes: Seq<u8>) -> Seq<char>;

/// Decodes bytes as UTF-8 through `String::from_utf8_lossy`; the text is
/// named by `lossy_utf8`. As documented, bytes that are valid UTF-8 decode
/// to exactly the text they encode.
#[verifier::external_body]
pub(crate) fn utf8_lossy(bytes: &[u8]) -> (s: String)
    ensures
        s@ == lossy_utf8(bytes@),
        vstd::utf8::valid_utf8(bytes@) ==> s@ == vstd::utf8::decode_utf8(bytes@),
{
    String::from_utf8_lossy(bytes).into_owned()
}

/// What a failed Git command adds to its error: the trimmed standard error,
/// or the trimmed standard output when that is empty, in parentheses.
pub open spec fn output_suffix(stdout: Seq<u8>, stderr: Seq<u8>) -> Seq<char> {
    suffix_of_texts(lossy_utf8(stdout), lossy_utf8(stderr))
}

/// The suffix for the decoded outputs (see `output_suffix`).
pub open spec fn suffix_of_texts(stdout: Seq<char>, stderr: Seq<char>) -> Seq<char> {
    let e = trimmed(stderr);
    let o = trimmed(stdout);
    let m = if e.len() == 0 {
        o
    } else {
        e
    };
    if m.len() == 0 {
        Seq::empty()
    } else {
        " ("@ + m + ")"@
    }
}

pub fn command_output_suffix(stdout: &[u8], stderr: &[u8]) -> (r: String)
    ensures
        r@ == output_suffix(stdout@, stderr@),
        vstd::utf8::valid_utf8(stdout@) && vstd::utf8::valid_utf8(stderr@) ==> r@ == suffix_of_texts(
            vstd::utf8::decode_utf8(stdout@),
            vstd::utf8::decode_utf8(stderr@),
        ),
{
    let e_text = utf8_lossy(stderr);
    let o_text = utf8_lossy(stdout);
    let e = trim(e_text.as_str());
    let o = trim(o_text.as_str());
    let message = if e.as_str().is_empty() {
        o
    } else {
        e
    };
    if message.as_str().is_empty() {
        String::new()
    } else {
        let mut s = owned(" (");
        push_text(&mut s, message.as_str());
        push_text(&mut s, ")");
        s
    }
}

/// Why Git could not be started: whether the program was not found, and the
/// system's description of the error.
#[derive(Clone, Debug)]
pub struct CommandStartError {
    pub not_found: bool,
    pub message: String,
}

pub open spec fn start_error_text(e: CommandStartError) -> Seq<char> {
    if e.not_found {
        "Git is not installed or is not available in PATH."@
    } else {
        "Failed to run Git: "@ + e.message@
    }
}

pub fn command_start_error(error: &CommandStartError) -> (r: String)
    ensures
        r@ == start_error_text(*error),
{
    if error.not_found {
        return owned("Git is not installed or is not available in PATH.");
    }
    let mut s = owned("Failed to run Git: ");
    push_text(&mut s, error.message.as_str());
    s
}

/// The extension `std::path::Path::extension` finds in a path (the part of
/// the file name after its last dot), if any. What the file name is depends
/// on the build target: Windows also splits paths at backslashes and reads drive
/// prefixes, Unix splits only at `/`.
pub uninterp spec fn path_extension_of(path: Seq<char>) -> Option<Seq<char>>;

/// The extension of a path through `Path::extension`, named by
/// `path_extension_of`; the path comes from a `&str`, so the extension is
/// valid UTF-8 and converts without loss.
#[verifier::external_body]
pub(crate) fn path_extension(path: &str) -> (r: Option<String>)
    ensures
        match r {
            Some(e) => path_extension_of(path@) == Some(e@),
            None => path_extension_of(path@) is None,
        },
{
    match std::path::Path::new(path).extension() {
        Some(e) => Some(e.to_string_lossy().into_owned()),
        None => None,
    }
}

/// A session log file: its extension is `jsonl` in any ASCII case.
pub open spec fn is_jsonl_path(path: Seq<char>) -> bool {
    match path_extension_of(path) {
        Some(e) => eq_ignore_ascii_case(e, "jsonl"@),
        None => false,
    }
}

pub fn is_jsonl_file(path: &str) -> (r: bool)
    ensures
        r == is_jsonl_path(path@),
{
    match path_extension(path) {
        Some(e) => text_eq_ignore_ascii_case(e.as_str(), "jsonl"),
        None => false,
    }
}

/// Whether `std::path::Path` considers two paths equal (component by
/// component). How a path splits into components depends on the build
/// target, as for `path_extension_of`.
pub uninterp spec fn paths_equal(a: Seq<char>, b: Seq<char>) -> bool;

/// Path equality through `Path::eq`, named by `paths_equal`; equal texts make
/// equal paths.
#[verifier::external_body]
fn path_eq(a: &str, b: &str) -> (r: bool)
    ensures
        r == paths_equal(a@, b@),
        a@ == b@ ==> r,
{
    std::path::Path::new(a) == std::path::Path::new(b)
}

/// Same folder: on Windows the texts equal without regard to ASCII case,
/// elsewhere the paths equal.
pub open spec fn same_path_spec(left: Seq<char>, right: Seq<char>, windows: bool) -> bool {
    if windows {
        eq_ignore_ascii_case(left, right)
    } else {
        paths_equal(left, right)
    }
}

pub fn same_path(left: &str, right: &str, windows: bool) -> (r: bool)
    ensures
        r == same_path_spec(left@, right@, windows),
{
    if windows {
        text_eq_ignore_ascii_case(left, right)
    } else {
        path_eq(left, right)
    }
}

/// The request for syncing the given records, or none when there is nothing
/// to sync or no repository is configured (the configured path, trimmed, is
/// empty).
pub open spec fn sync_request_spec(
    records: Seq<SessionRecord>,
    repo_setting: Option<Seq<char>>,
    sessions_dir: Seq<char>,
    log_path: Seq<char>,
) -> Option<(Seq<char>, Seq<char>, Seq<char>, Seq<char>)> {
    if records.len() == 0 {
        None
    } else {
        match repo_setting {
            None => None,
            Some(repo) => if trimmed(repo).len() == 0 {
                None
            } else {
                Some((sessions_dir, trimmed(repo), log_path, commit_body_text(records)))
            },
        }
    }
}

pub open spec fn request_parts(r: SyncRequest) -> (Seq<char>, Seq<char>, Seq<char>, Seq<char>) {
    (r.sessions_dir@, r.repo_path@, r.log_path@, r.commit_body@)
}

/// Builds the sync request for freshly saved records (see `sync_request_spec`).
pub fn sync_request_for(
    records: &[SessionRecord],
    repo_setting: &Option<String>,
    sessions_dir: &str,
    log_path: &str,
) -> (r: Option<SyncRequest>)
    requires
        forall|i: int| 0 <= i < records@.len() ==> record_times_valid(#[trigger] records@[i]),
    ensures
        match sync_request_spec(
            records@,
            match repo_setting {
                Some(s) => Some(s@),
                None => None,
            },
            sessions_dir@,
            log_path@,
        ) {
            Some(parts) => r is Some && request_parts(r->0) == parts,
            None => r is None,
        },
{
    if records.len() == 0 {
        return None;
    }
    let repo = match repo_setting {
        Some(s) => trim(s.as_str()),
        None => return None,
    };
    if repo.as_str().is_empty() {
        return None;
    }
    Some(
        SyncRequest {
            sessions_dir: owned(sessions_dir),
            repo_path: repo,
            log_path: owned(log_path),
            commit_body: build_commit_body(records),
        },
    )
}

/// The background sync queue: whether a worker runs and the request waiting
/// for it (a newer request replaces an older one still waiting).
pub struct SyncQueue {
    pub running: bool,
    pub pending: Option<SyncRequest>,
}

impl SyncQueue {
    pub fn new() -> (q: SyncQueue)
        ensures
            !q.running,
            q.pending is None,
    {
        SyncQueue { running: false, pending: None }
    }
}

/// The queue after a request is queued: it waits, and a worker runs.
pub open spec fn enqueue_model(q: SyncQueue, request: SyncRequest) -> SyncQueue {
    SyncQueue { running: true, pending: Some(request) }
}

/// The queue after the worker asks for work, and what it gets: the waiting
/// request; with none waiting, the worker stops.
pub open spec fn take_model(q: SyncQueue) -> (SyncQueue, Option<SyncRequest>) {
    match q.pending {
        Some(r) => (SyncQueue { running: q.running, pending: None }, Some(r)),
        None => (SyncQueue { running: false, pending: None }, None),
    }
}

/// Queues a request; returns whether a worker must be started, which is when
/// none was running.
pub fn enqueue_sync(queue: &mut SyncQueue, request: SyncRequest) -> (start_worker: bool)
    ensures
        *final(queue) == enqueue_model(*old(queue), request),
        start_worker == !old(queue).running,
{
    queue.pending = Some(request);
    if queue.running {
        return false;
    }
    queue.running = true;
    true
}

/// What the worker takes next (see `take_model`).
pub fn next_sync_request(queue: &mut SyncQueue) -> (r: Option<SyncRequest>)
    ensures
        (*final(queue), r) == take_model(*old(queue)),
{
    match queue.pending.take() {
        Some(request) => Some(request),
        None => {
            queue.running = false;
            None
        },
    }
}

/// One command-line argument: its text (lossily decoded) and whether it was
/// valid Unicode.
#[derive(Clone, Debug)]
pub struct HelperArgument {
    pub text: String,
    pub unicode: bool,
}

pub open spec fn helper_args_spec(args: Seq<HelperArgument>) -> Result<
    Option<(Seq<char>, Seq<char>, Seq<char>, Seq<char>)>,
    Seq<char>,
> {
    if args.len() < 2 || !(args[1].unicode && args[1].text@ == SYNC_HELPER_ARG@) {
        Ok(None)
    } else if args.len() < 3 {
        Err("Sync helper is missing the sessions directory."@)
    } else if args.len() < 4 {
        Err("Sync helper is missing the Git repository path."@)
    } else if args.len() < 5 {
        Err("Sync helper is missing the sync log path."@)
    } else if args.len() < 6 {
        Err("Sync helper is missing the commit message."@)
    } else if !args[5].unicode {
        Err("Sync helper commit message is not valid Unicode."@)
    } else {
        Ok(Some((args[2].text@, args[3].text@, args[4].text@, args[5].text@)))
    }
}

/// Reads the helper invocation `<exe> --focustrail-git-sync <sessions dir>
/// <repository> <log path> <commit body>`: none when the program was not
/// started as the helper, else the request or the missing part.
pub fn parse_helper_args(args: &[HelperArgument]) -> (r: Result<Option<SyncRequest>, String>)
    ensures
        match helper_args_spec(args@) {
            Ok(None) => r is Ok && r->Ok_0 is None,
            Ok(Some(parts)) => r is Ok && r->Ok_0 is Some && request_parts(r->Ok_0->0) == parts,
            Err(e) => r is Err && r->Err_0@ == e,
        },
{
    if args.len() < 2 {
        return Ok(None);
    }
    let flag = owned(SYNC_HELPER_ARG);
    if !(args[1].unicode && args[1].text == flag) {
        return Ok(None);
    }
    if args.len() < 3 {
        return Err(owned("Sync helper is missing the sessions directory."));
    }
    if args.len() < 4 {
        return Err(owned("Sync helper is missing the Git repository path."));
    }
    if args.len() < 5 {
        return Err(owned("Sync helper is missing the sync log path."));
    }
    if args.len() < 6 {
        return Err(owned("Sync helper is missing the commit message."));
    }
    if !args[5].unicode {
        return Err(owned("Sync helper commit message is not valid Unicode."));
    }
    Ok(
        Some(
            SyncRequest {
                sessions_dir: args[2].text.clone(),
                repo_path: args[3].text.clone(),
                log_path: args[4].text.clone(),
                commit_body: args[5].text.clone(),
            },
        ),
    )
}

/// The arguments, after the program itself, with which the helper process
/// is started for a request.
pub fn helper_arguments(request: &SyncRequest) -> (r: Vec<String>)
    ensures
        r@.len() == 5,
        r@[0]@ == SYNC_HELPER_ARG@,
        r@[1]@ == request.sessions_dir@,
        r@[2]@ == request.repo_path@,
        r@[3]@ == request.log_path@,
        r@[4]@ == request.commit_body@,
{
    let mut v: Vec<String> = Vec::new();
    v.push(owned(SYNC_HELPER_ARG));
    v.push(request.sessions_dir.clone());
    v.push(request.repo_path.clone());
    v.push(request.log_path.clone());
    v.push(request.commit_body.clone());
    v
}

/// The log line level and message for the result of a sync run.
pub open spec fn result_log(result: Result<SyncOutcome, Seq<char>>, sessions_dir: Seq<char>, repo_path: Seq<char>) -> (
    Seq<char>,
    Seq<char>,
) {
    match result {
        Ok(SyncOutcome::Pushed) => ("success"@, "Git sync pushed record changes successfully."@),
        Ok(SyncOutcome::NoChanges) => ("success"@, "Git sync completed; no record changes to push."@),
        Ok(SyncOutcome::SkippedDirty) => (
            "skipped"@,
            "Git sync skipped because focustrail-records/sessions has uncommitted, staged, or untracked changes."@,
        ),
        Err(e) => ("failed"@, "Git sync failed: "@ + sanitized(e, sessions_dir, repo_path)),
    }
}

/// The log message for a failure, with local paths masked.
pub fn failure_log_message(error: &str, request: &SyncRequest) -> (r: String)
    ensures
        r@ == "Git sync failed: "@ + sanitized(error@, request.sessions_dir@, request.repo_path@),
{
    let mut s = owned("Git sync failed: ");
    let clean = sanitize_sync_error(error, request);
    push_text(&mut s, clean.as_str());
    s
}

/// A sync log line: `[time] level message`.
pub open spec fn log_line_text(now: LocalTime, level: Seq<char>, message: Seq<char>) -> Seq<char> {
    "["@ + chrono_formatted(now.secs, now.nanos, now.offset_seconds, stamp_pattern()) + "] "@ + level
        + " "@ + message
}

pub fn sync_log_line(now: LocalTime, level: &str, message: &str) -> (r: String)
    requires
        now.valid(),
    ensures
        r@ == log_line_text(now, level@, message@),
{
    let mut s = owned("[");
    let stamp = format_local_time(now, "%Y-%m-%d %H:%M:%S %:z");
    push_text(&mut s, stamp.as_str());
    push_text(&mut s, "] ");
    push_text(&mut s, level);
    push_text(&mut s, " ");
    push_text(&mut s, message);
    assert(s@ =~= log_line_text(now, level@, message@));
    s
}

} // verus!
