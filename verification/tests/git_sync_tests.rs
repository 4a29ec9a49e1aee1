use focustrail::domain::{SessionRecord, SessionRecordStatus, SessionTimeType};
use focustrail::git_sync::{
    build_commit_body, command_output_suffix, command_start_error, commit_record_line,
    enqueue_sync, failure_log_message, helper_arguments, is_jsonl_file, minutes_label,
    next_sync_request, parse_helper_args, same_path, sanitize_sync_error, seconds_label,
    status_label, sync_log_line, sync_request_for, time_type_label, CommandStartError,
    HelperArgument, SyncMode, SyncQueue, SyncRequest,
};
use focustrail::time::LocalTime;

fn record(time_type: SessionTimeType, status: SessionRecordStatus, actual_seconds: u64) -> SessionRecord {
    SessionRecord {
        id: "r".to_string(),
        session_id: "s".to_string(),
        time_type,
        status,
        planned_minutes: 25,
        actual_seconds,
        started_at: LocalTime { secs: 1778644800, nanos: 0, offset_seconds: 3600 },
        ended_at: LocalTime { secs: 1778646330, nanos: 500, offset_seconds: 3600 },
    }
}

fn request(sessions: &str, repo: &str) -> SyncRequest {
    SyncRequest {
        sessions_dir: sessions.to_string(),
        repo_path: repo.to_string(),
        log_path: "log".to_string(),
        commit_body: "body".to_string(),
    }
}

fn arg(text: &str) -> HelperArgument {
    HelperArgument { text: text.to_string(), unicode: true }
}

#[test]
fn labels_name_kinds_and_durations() {
    assert_eq!(time_type_label(SessionTimeType::Focus), "focus");
    assert_eq!(time_type_label(SessionTimeType::Rest), "rest");
    assert_eq!(status_label(SessionRecordStatus::Completed), "completed");
    assert_eq!(status_label(SessionRecordStatus::Cancelled), "cancelled");
    assert_eq!(minutes_label(25), "25 min");
    assert_eq!(minutes_label(0), "0 min");
    assert_eq!(seconds_label(3725), "1 h 2 min 5 sec");
    assert_eq!(seconds_label(3600), "1 h 0 min 0 sec");
    assert_eq!(seconds_label(125), "2 min 5 sec");
    assert_eq!(seconds_label(5), "5 sec");
    assert_eq!(seconds_label(0), "0 sec");
    assert_eq!(seconds_label(u64::MAX), "5124095576030431 h 0 min 15 sec");
}

#[test]
fn commit_lines_describe_each_record() {
    let r = record(SessionTimeType::Focus, SessionRecordStatus::Completed, 1530);
    assert_eq!(
        commit_record_line(&r),
        "- focus completed: planned 25 min, actual 25 min 30 sec, 2026-05-13 05:00:00 +01:00 -> 2026-05-13 05:25:30 +01:00"
    );
    let body = build_commit_body(&[r.clone(), record(SessionTimeType::Rest, SessionRecordStatus::Cancelled, 40)]);
    assert_eq!(
        body,
        "FocusTrail session records:\n- focus completed: planned 25 min, actual 25 min 30 sec, 2026-05-13 05:00:00 +01:00 -> 2026-05-13 05:25:30 +01:00\n- rest cancelled: planned 25 min, actual 40 sec, 2026-05-13 05:00:00 +01:00 -> 2026-05-13 05:25:30 +01:00\nOnly FocusTrail *.jsonl record files are synchronized."
    );
    assert_eq!(
        build_commit_body(&[]),
        "FocusTrail session records:\nOnly FocusTrail *.jsonl record files are synchronized."
    );
}

#[test]
fn errors_mask_local_paths() {
    let req = request("/data/sessions", "/repo");
    assert_eq!(
        sanitize_sync_error("copy /data/sessions/a.jsonl to /repo/x and /repo/y", &req),
        "copy <local-sessions>/a.jsonl to <sync-repo>/x and <sync-repo>/y"
    );
    assert_eq!(sanitize_sync_error("nothing here", &request("", "")), "nothing here");
    assert_eq!(
        failure_log_message("bad /repo", &req),
        "Git sync failed: bad <sync-repo>"
    );
}

#[test]
fn output_suffix_prefers_stderr() {
    assert_eq!(command_output_suffix(b"out\n", b"  err  \n"), " (err)");
    assert_eq!(command_output_suffix(b"  out\n", b"\n"), " (out)");
    assert_eq!(command_output_suffix(b"", b" \t"), "");
    assert_eq!(command_output_suffix(b"", &[0xff, b'x']), " (\u{fffd}x)");
}

#[test]
fn start_errors_name_missing_git() {
    let missing = CommandStartError { not_found: true, message: "x".to_string() };
    assert_eq!(command_start_error(&missing), "Git is not installed or is not available in PATH.");
    let other = CommandStartError { not_found: false, message: "denied".to_string() };
    assert_eq!(command_start_error(&other), "Failed to run Git: denied");
}

#[test]
fn jsonl_files_are_recognised_by_extension() {
    assert!(is_jsonl_file("/a/b/2026-05.jsonl"));
    assert!(is_jsonl_file("x.JSONL"));
    assert!(!is_jsonl_file("x.json"));
    assert!(!is_jsonl_file(".jsonl"));
    assert!(!is_jsonl_file("jsonl"));
    assert!(is_jsonl_file("dir/a.jsonl/"));
}

#[test]
fn paths_compare_by_platform_rules() {
    assert!(same_path("/a/b", "/a/b", false));
    assert!(same_path("/a//b/", "/a/b", false));
    assert!(!same_path("/a/B", "/a/b", false));
    assert!(same_path("C:\\Repo", "c:\\repo", true));
    assert!(!same_path("C:\\Repo", "C:\\Rep", true));
}

#[test]
fn the_queue_keeps_the_latest_request_and_one_worker() {
    let mut q = SyncQueue::new();
    assert!(enqueue_sync(&mut q, request("a", "r1")));
    assert!(!enqueue_sync(&mut q, request("b", "r2")));
    let first = next_sync_request(&mut q).unwrap();
    assert_eq!(first.sessions_dir, "b");
    assert!(q.running);
    assert!(next_sync_request(&mut q).is_none());
    assert!(!q.running);
    assert!(enqueue_sync(&mut q, request("c", "r3")));
    assert_eq!(SyncMode::Background, SyncMode::Background);
    assert_ne!(SyncMode::Background, SyncMode::Detached);
}

#[test]
fn helper_arguments_are_read_back() {
    let req = SyncRequest {
        sessions_dir: "/s".to_string(),
        repo_path: "/r".to_string(),
        log_path: "/l".to_string(),
        commit_body: "body\nline".to_string(),
    };
    let mut args = vec![arg("focustrail")];
    for a in helper_arguments(&req) {
        args.push(arg(&a));
    }
    let parsed = parse_helper_args(&args).unwrap().unwrap();
    assert_eq!(parsed.sessions_dir, "/s");
    assert_eq!(parsed.repo_path, "/r");
    assert_eq!(parsed.log_path, "/l");
    assert_eq!(parsed.commit_body, "body\nline");
}

#[test]
fn helper_arguments_report_what_is_missing() {
    assert!(parse_helper_args(&[arg("app")]).unwrap().is_none());
    assert!(parse_helper_args(&[arg("app"), arg("--other")]).unwrap().is_none());
    let mut not_unicode = arg("--focustrail-git-sync");
    not_unicode.unicode = false;
    assert!(parse_helper_args(&[arg("app"), not_unicode]).unwrap().is_none());
    let flag = arg("--focustrail-git-sync");
    assert_eq!(
        parse_helper_args(&[arg("app"), flag.clone()]).unwrap_err(),
        "Sync helper is missing the sessions directory."
    );
    assert_eq!(
        parse_helper_args(&[arg("app"), flag.clone(), arg("s")]).unwrap_err(),
        "Sync helper is missing the Git repository path."
    );
    assert_eq!(
        parse_helper_args(&[arg("app"), flag.clone(), arg("s"), arg("r")]).unwrap_err(),
        "Sync helper is missing the sync log path."
    );
    assert_eq!(
        parse_helper_args(&[arg("app"), flag.clone(), arg("s"), arg("r"), arg("l")]).unwrap_err(),
        "Sync helper is missing the commit message."
    );
    let mut body = arg("b");
    body.unicode = false;
    assert_eq!(
        parse_helper_args(&[arg("app"), flag, arg("s"), arg("r"), arg("l"), body]).unwrap_err(),
        "Sync helper commit message is not valid Unicode."
    );
}

#[test]
fn sync_requests_need_records_and_a_repository() {
    let r = record(SessionTimeType::Focus, SessionRecordStatus::Completed, 60);
    assert!(sync_request_for(&[], &Some("/repo".to_string()), "/s", "/l").is_none());
    assert!(sync_request_for(&[r.clone()], &None, "/s", "/l").is_none());
    assert!(sync_request_for(&[r.clone()], &Some("   ".to_string()), "/s", "/l").is_none());
    let req = sync_request_for(&[r.clone()], &Some("  /repo ".to_string()), "/s", "/l").unwrap();
    assert_eq!(req.repo_path, "/repo");
    assert_eq!(req.sessions_dir, "/s");
    assert_eq!(req.log_path, "/l");
    assert_eq!(req.commit_body, build_commit_body(&[r]));
}

#[test]
fn log_lines_carry_time_level_and_message() {
    let now = LocalTime { secs: 1778644800, nanos: 0, offset_seconds: -18000 };
    assert_eq!(
        sync_log_line(now, "success", "done"),
        "[2026-05-12 23:00:00 -05:00] success done"
    );
}

#[test]
fn a_commit_body_has_a_line_per_record_between_heading_and_note() {
    let records = vec![
        record(SessionTimeType::Focus, SessionRecordStatus::Completed, 4000),
        record(SessionTimeType::Rest, SessionRecordStatus::Completed, 300),
        record(SessionTimeType::Focus, SessionRecordStatus::Cancelled, 5),
    ];
    let body = build_commit_body(&records);
    let lines: Vec<&str> = body.split('\n').collect();
    assert_eq!(lines.len(), records.len() + 2);
    assert_eq!(lines[0], "FocusTrail session records:");
    for (i, r) in records.iter().enumerate() {
        assert_eq!(lines[i + 1], commit_record_line(r));
    }
    assert_eq!(lines[4], "Only FocusTrail *.jsonl record files are synchronized.");
}
