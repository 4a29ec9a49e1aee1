use focustrail::git_sync::{CommandStartError, SyncOutcome, SyncRequest};
use focustrail::sync_run::{GitRun, SyncAction, SyncResponse, SyncRun};

fn request() -> SyncRequest {
    SyncRequest {
        sessions_dir: "/home/u/data/sessions".to_string(),
        repo_path: "/home/u/repo".to_string(),
        log_path: "/home/u/data/focustrail-sync.log".to_string(),
        commit_body: "FocusTrail session records:".to_string(),
    }
}

fn git_ok(out: &str) -> SyncResponse {
    SyncResponse::Git(GitRun::Finished { exit_code: Some(0), stdout: out.as_bytes().to_vec(), stderr: Vec::new() })
}

fn git_code(code: i32, err: &str) -> SyncResponse {
    SyncResponse::Git(GitRun::Finished {
        exit_code: Some(code),
        stdout: Vec::new(),
        stderr: err.as_bytes().to_vec(),
    })
}

fn git_args(a: &SyncAction) -> Vec<String> {
    match a {
        SyncAction::RunGit(args) => args.clone(),
        other => panic!("expected a git command, got {:?}", other),
    }
}

fn through_validation(windows: bool) -> (SyncRun, SyncAction) {
    let (run, action) = SyncRun::start(request(), windows);
    match &action {
        SyncAction::AppendLog { level, message } => {
            assert_eq!(level, "started");
            assert_eq!(message, "Git sync started.");
        }
        other => panic!("unexpected {:?}", other),
    }
    let (run, action) = run.step(SyncResponse::Logged);
    assert!(matches!(&action, SyncAction::CheckExists(p) if p == "/home/u/repo"));
    let (run, action) = run.step(SyncResponse::Flag(true));
    assert!(matches!(&action, SyncAction::CheckIsDir(p) if p == "/home/u/repo"));
    let (run, action) = run.step(SyncResponse::Flag(true));
    assert_eq!(git_args(&action), vec!["rev-parse", "--show-toplevel"]);
    let (run, action) = run.step(git_ok("  /home/u/repo \n"));
    assert!(matches!(&action, SyncAction::Canonicalize(p) if p == "/home/u/repo"));
    let (run, action) = run.step(SyncResponse::Path(Ok("/home/u/repo".to_string())));
    assert!(matches!(&action, SyncAction::Canonicalize(p) if p == "/home/u/repo"));
    let (run, action) = run.step(SyncResponse::Path(Ok("/home/u/repo".to_string())));
    assert_eq!(git_args(&action), vec!["remote"]);
    let (run, action) = run.step(git_ok("\n  \norigin\nbackup\n"));
    assert_eq!(git_args(&action), vec!["remote", "get-url", "origin"]);
    let (run, action) = run.step(git_ok("git@example.com:u/repo.git"));
    assert_eq!(git_args(&action), vec!["branch", "--show-current"]);
    run.step(git_ok("main\n"))
}

#[test]
fn a_clean_repository_with_new_records_is_pushed() {
    let (run, action) = through_validation(false);
    assert_eq!(git_args(&action), vec!["diff", "--quiet", "--", "focustrail-records/sessions"]);
    let (run, action) = run.step(git_code(0, ""));
    assert_eq!(git_args(&action), vec!["diff", "--cached", "--quiet", "--", "focustrail-records/sessions"]);
    let (run, action) = run.step(git_code(0, ""));
    assert_eq!(
        git_args(&action),
        vec!["ls-files", "--others", "--exclude-standard", "--", "focustrail-records/sessions"]
    );
    let (run, action) = run.step(git_ok(""));
    assert!(matches!(&action, SyncAction::CopyRecords { sessions_dir, repo_path }
        if sessions_dir == "/home/u/data/sessions" && repo_path == "/home/u/repo"));
    let (run, action) = run.step(SyncResponse::Copied(Ok(())));
    assert_eq!(git_args(&action), vec!["add", "--", ":(glob)focustrail-records/sessions/*.jsonl"]);
    let (run, action) = run.step(git_ok(""));
    assert_eq!(git_args(&action), vec!["diff", "--cached", "--quiet", "--", "focustrail-records/sessions"]);
    let (run, action) = run.step(git_code(1, ""));
    assert_eq!(
        git_args(&action),
        vec![
            "commit",
            "-m",
            "Sync FocusTrail records",
            "-m",
            "FocusTrail session records:",
            "--",
            ":(glob)focustrail-records/sessions/*.jsonl"
        ]
    );
    let (run, action) = run.step(git_ok("[main abc] Sync"));
    assert_eq!(git_args(&action), vec!["push", "origin", "HEAD:main"]);
    let (run, action) = run.step(git_ok(""));
    match &action {
        SyncAction::AppendLog { level, message } => {
            assert_eq!(level, "success");
            assert_eq!(message, "Git sync pushed record changes successfully.");
        }
        other => panic!("unexpected {:?}", other),
    }
    assert!(!run.is_finished());
    let (run, action) = run.step(SyncResponse::Logged);
    assert!(run.is_finished());
    assert!(matches!(action, SyncAction::Finish(Ok(SyncOutcome::Pushed))));
}

#[test]
fn nothing_staged_after_copy_means_no_changes() {
    let (run, _) = through_validation(false);
    let (run, _) = run.step(git_code(0, ""));
    let (run, _) = run.step(git_code(0, ""));
    let (run, _) = run.step(git_ok(""));
    let (run, _) = run.step(SyncResponse::Copied(Ok(())));
    let (run, _) = run.step(git_ok(""));
    let (run, action) = run.step(git_code(0, ""));
    match &action {
        SyncAction::AppendLog { level, message } => {
            assert_eq!(level, "success");
            assert_eq!(message, "Git sync completed; no record changes to push.");
        }
        other => panic!("unexpected {:?}", other),
    }
    let (_, action) = run.step(SyncResponse::Logged);
    assert!(matches!(action, SyncAction::Finish(Ok(SyncOutcome::NoChanges))));
}

#[test]
fn uncommitted_or_untracked_records_skip_the_sync() {
    let skipped = "Git sync skipped because focustrail-records/sessions has uncommitted, staged, or untracked changes.";
    let (run, _) = through_validation(false);
    let (run, action) = run.step(git_code(1, ""));
    assert!(matches!(&action, SyncAction::AppendLog { level, message } if level == "skipped" && message == skipped));
    let (_, action) = run.step(SyncResponse::Logged);
    assert!(matches!(action, SyncAction::Finish(Ok(SyncOutcome::SkippedDirty))));

    let (run, _) = through_validation(false);
    let (run, _) = run.step(git_code(0, ""));
    let (run, _) = run.step(git_code(0, ""));
    let (run, action) = run.step(git_ok("focustrail-records/sessions/2026-05.jsonl\n"));
    assert!(matches!(&action, SyncAction::AppendLog { level, .. } if level == "skipped"));
    let (_, action) = run.step(SyncResponse::Logged);
    assert!(matches!(action, SyncAction::Finish(Ok(SyncOutcome::SkippedDirty))));
}

#[test]
fn a_failing_git_command_is_logged_with_paths_masked() {
    let (run, _) = through_validation(false);
    let (run, action) = run.step(git_code(128, "fatal: not a git repository: /home/u/repo/.git\n"));
    match &action {
        SyncAction::AppendLog { level, message } => {
            assert_eq!(level, "failed");
            assert_eq!(
                message,
                "Git sync failed: Git command failed: git diff --quiet -- focustrail-records/sessions (fatal: not a git repository: <sync-repo>/.git)"
            );
        }
        other => panic!("unexpected {:?}", other),
    }
    let (_, action) = run.step(SyncResponse::Logged);
    match action {
        SyncAction::Finish(Err(e)) => assert_eq!(
            e,
            "Git command failed: git diff --quiet -- focustrail-records/sessions (fatal: not a git repository: /home/u/repo/.git)"
        ),
        other => panic!("unexpected {:?}", other),
    }
}

#[test]
fn validation_failures_end_the_sync() {
    let (run, _) = SyncRun::start(request(), false);
    let (run, _) = run.step(SyncResponse::Logged);
    let (run, action) = run.step(SyncResponse::Flag(false));
    assert!(matches!(&action, SyncAction::AppendLog { message, .. }
        if message == "Git sync failed: The selected folder does not exist."));
    let (_, action) = run.step(SyncResponse::Logged);
    assert!(matches!(action, SyncAction::Finish(Err(ref e)) if e == "The selected folder does not exist."));

    let (run, _) = SyncRun::validate("/x".to_string(), false);
    let (_, action) = run.step(SyncResponse::Flag(true));
    assert!(matches!(action, SyncAction::CheckIsDir(_)));

    let (run, _) = SyncRun::validate("/x".to_string(), false);
    let (run, _) = run.step(SyncResponse::Flag(true));
    let (_, action) = run.step(SyncResponse::Flag(false));
    assert!(matches!(action, SyncAction::Finish(Err(ref e)) if e == "The selected path is not a folder."));
}

#[test]
fn a_subfolder_of_a_repository_is_refused() {
    let (run, _) = SyncRun::validate("/home/u/repo/sub".to_string(), false);
    let (run, _) = run.step(SyncResponse::Flag(true));
    let (run, _) = run.step(SyncResponse::Flag(true));
    let (run, _) = run.step(git_ok("/home/u/repo"));
    let (run, _) = run.step(SyncResponse::Path(Ok("/home/u/repo/sub".to_string())));
    let (_, action) = run.step(SyncResponse::Path(Ok("/home/u/repo".to_string())));
    assert!(matches!(action, SyncAction::Finish(Err(ref e)) if e == "Please choose the Git repository root folder."));
}

#[test]
fn windows_paths_compare_without_case() {
    let (run, _) = SyncRun::validate("C:\\Repo".to_string(), true);
    let (run, _) = run.step(SyncResponse::Flag(true));
    let (run, _) = run.step(SyncResponse::Flag(true));
    let (run, _) = run.step(git_ok("C:/Repo"));
    let (run, _) = run.step(SyncResponse::Path(Ok("\\\\?\\C:\\REPO".to_string())));
    let (_, action) = run.step(SyncResponse::Path(Ok("\\\\?\\c:\\repo".to_string())));
    assert_eq!(git_args(&action), vec!["remote"]);
}

#[test]
fn validation_reports_remote_and_branch() {
    let (run, _) = SyncRun::validate("/r".to_string(), false);
    let (run, _) = run.step(SyncResponse::Flag(true));
    let (run, _) = run.step(SyncResponse::Flag(true));
    let (run, _) = run.step(git_ok("/r"));
    let (run, _) = run.step(SyncResponse::Path(Ok("/r".to_string())));
    let (run, _) = run.step(SyncResponse::Path(Ok("/r".to_string())));
    let (run, _) = run.step(git_ok("upstream"));
    let (run, _) = run.step(git_ok("https://example.com/r.git"));
    let (run, action) = run.step(git_ok("dev"));
    assert!(run.is_finished());
    assert!(matches!(action, SyncAction::Valid { ref remote, ref branch } if remote == "upstream" && branch == "dev"));
}

#[test]
fn repository_without_remote_or_branch_is_refused() {
    let (run, _) = SyncRun::validate("/r".to_string(), false);
    let (run, _) = run.step(SyncResponse::Flag(true));
    let (run, _) = run.step(SyncResponse::Flag(true));
    let (run, _) = run.step(git_ok("/r"));
    let (run, _) = run.step(SyncResponse::Path(Ok("/r".to_string())));
    let (after_paths, _) = run.step(SyncResponse::Path(Ok("/r".to_string())));
    let (_, action) = after_paths.step(git_ok("   \n"));
    assert!(matches!(action, SyncAction::Finish(Err(ref e)) if e == "The selected Git repository has no remote configured."));

    let (run, _) = SyncRun::validate("/r".to_string(), false);
    let (run, _) = run.step(SyncResponse::Flag(true));
    let (run, _) = run.step(SyncResponse::Flag(true));
    let (run, _) = run.step(git_ok("/r"));
    let (run, _) = run.step(SyncResponse::Path(Ok("/r".to_string())));
    let (run, _) = run.step(SyncResponse::Path(Ok("/r".to_string())));
    let (run, _) = run.step(git_ok("origin"));
    let (run, _) = run.step(git_ok("x"));
    let (_, action) = run.step(git_ok("  "));
    assert!(matches!(action, SyncAction::Finish(Err(ref e)) if e == "The selected Git repository is in detached HEAD state."));
}

#[test]
fn git_start_failures_and_canonical_errors_are_reported() {
    let (run, _) = SyncRun::validate("/r".to_string(), false);
    let (run, _) = run.step(SyncResponse::Flag(true));
    let (run, _) = run.step(SyncResponse::Flag(true));
    let (_, action) = run.step(SyncResponse::Git(GitRun::StartFailed(CommandStartError {
        not_found: true,
        message: "No such file or directory (os error 2)".to_string(),
    })));
    assert!(matches!(action, SyncAction::Finish(Err(ref e)) if e == "Git is not installed or is not available in PATH."));

    let (run, _) = SyncRun::validate("/r".to_string(), false);
    let (run, _) = run.step(SyncResponse::Flag(true));
    let (run, _) = run.step(SyncResponse::Flag(true));
    let (run, _) = run.step(git_ok("/r"));
    let (_, action) = run.step(SyncResponse::Path(Err("permission denied".to_string())));
    assert!(matches!(action, SyncAction::Finish(Err(ref e)) if e == "Failed to read folder path: permission denied"));

    let (run, _) = SyncRun::validate("/r".to_string(), false);
    let (run, _) = run.step(SyncResponse::Flag(true));
    let (run, _) = run.step(SyncResponse::Flag(true));
    let (_, action) = run.step(SyncResponse::Git(GitRun::Finished {
        exit_code: None,
        stdout: b"partial".to_vec(),
        stderr: Vec::new(),
    }));
    assert!(matches!(action, SyncAction::Finish(Err(ref e)) if e == "Git command failed: git rev-parse --show-toplevel (partial)"));
}

#[test]
fn copy_failure_ends_the_sync() {
    let (run, _) = through_validation(false);
    let (run, _) = run.step(git_code(0, ""));
    let (run, _) = run.step(git_code(0, ""));
    let (run, _) = run.step(git_ok(""));
    let (_, action) = run.step(SyncResponse::Copied(Err("disk full".to_string())));
    assert!(matches!(action, SyncAction::AppendLog { ref message, .. } if message == "Git sync failed: disk full"));
}
