//! One Git sync run as a sequence of steps: each step names the outside work
//! to do (a log line, a file-system check, a Git command, the copy of the
//! session logs) and the next step follows from its result. The program
//! around the library performs the work and hands the result back.

use vstd::prelude::*;
use crate::git_sync::{
    CommandStartError, SyncOutcome, SyncRequest, COMMIT_MESSAGE, SYNC_JSONL_PATHSPEC,
    SYNC_RECORDS_PATHSPEC, command_output_suffix, command_start_error, output_suffix, lossy_utf8,
    result_log, same_path, same_path_spec, failure_log_message, start_error_text, utf8_lossy,
};
use crate::text::{chars_of, owned, push_text, text_of, push_string, push_word, texts, trim, trim_chars, trimmed, line_end, lemma_line_end};

verus! {

/// How a Git command ended: its exit code (none when it was killed by a
/// signal) and its output, or why it could not start.
#[derive(Clone, Debug)]
pub enum GitRun {
    Finished { exit_code: Option<i32>, stdout: Vec<u8>, stderr: Vec<u8> },
    StartFailed(CommandStartError),
}

/// The result of the outside work a step asked for.
#[derive(Debug)]
pub enum SyncResponse {
    /// The log line was appended (or reporting its failure is all there is to do).
    Logged,
    /// Whether the checked path exists, or is a folder.
    Flag(bool),
    /// How the Git command ended.
    Git(GitRun),
    /// The canonical form of the path, or the error text.
    Path(Result<String, String>),
    /// Whether copying the session logs succeeded, with the error text if not.
    Copied(Result<(), String>),
}

/// The outside work a step asks for.
#[derive(Debug)]
pub enum SyncAction {
    /// Append a timestamped line `level message` to the sync log.
    AppendLog { level: String, message: String },
    /// Report whether the path exists.
    CheckExists(String),
    /// Report whether the path is a folder.
    CheckIsDir(String),
    /// Run `git -C <repository> <args>`.
    RunGit(Vec<String>),
    /// Canonicalise the path.
    Canonicalize(String),
    /// Replace the `*.jsonl` files in `<repository>/focustrail-records/sessions`
    /// with those of the sessions folder.
    CopyRecords { sessions_dir: String, repo_path: String },
    /// The run is over, with this result.
    Finish(Result<SyncOutcome, String>),
    /// A validation run is over: the repository is a sync target with this
    /// remote and branch.
    Valid { remote: String, branch: String },
}

/// Where a run stands.
#[derive(Debug)]
pub enum SyncStage {
    LoggingStart,
    CheckingExists,
    CheckingDir,
    ReadingTopLevel,
    CanonicalizingSelected { top_level: String },
    CanonicalizingTopLevel { top_level: String, selected_root: String },
    ReadingRemotes,
    CheckingRemoteUrl { remote: String },
    ReadingBranch { remote: String },
    CheckingUnstaged { remote: String, branch: String },
    CheckingStaged { remote: String, branch: String },
    CheckingUntracked { remote: String, branch: String },
    Copying { remote: String, branch: String },
    Adding { remote: String, branch: String },
    CheckingStagedAfterAdd { remote: String, branch: String },
    Committing { remote: String, branch: String },
    Pushing { remote: String, branch: String },
    LoggingResult { result: Result<SyncOutcome, String> },
    Finished { result: Result<SyncOutcome, String> },
    RepositoryValid { remote: String, branch: String },
}

pub enum GitRunView {
    Finished { exit_code: Option<i32>, stdout: Seq<u8>, stderr: Seq<u8> },
    StartFailed(Seq<char>),
}

pub enum ResponseView {
    Logged,
    Flag(bool),
    Git(GitRunView),
    Path(Result<Seq<char>, Seq<char>>),
    Copied(Result<(), Seq<char>>),
}

pub enum ActionView {
    AppendLog { level: Seq<char>, message: Seq<char> },
    CheckExists(Seq<char>),
    CheckIsDir(Seq<char>),
    RunGit(Seq<Seq<char>>),
    Canonicalize(Seq<char>),
    CopyRecords { sessions_dir: Seq<char>, repo_path: Seq<char> },
    Finish(Result<SyncOutcome, Seq<char>>),
    Valid { remote: Seq<char>, branch: Seq<char> },
}

pub enum StageView {
    LoggingStart,
    CheckingExists,
    CheckingDir,
    ReadingTopLevel,
    CanonicalizingSelected { top_level: Seq<char> },
    CanonicalizingTopLevel { top_level: Seq<char>, selected_root: Seq<char> },
    ReadingRemotes,
    CheckingRemoteUrl { remote: Seq<char> },
    ReadingBranch { remote: Seq<char> },
    CheckingUnstaged { remote: Seq<char>, branch: Seq<char> },
    CheckingStaged { remote: Seq<char>, branch: Seq<char> },
    CheckingUntracked { remote: Seq<char>, branch: Seq<char> },
    Copying { remote: Seq<char>, branch: Seq<char> },
    Adding { remote: Seq<char>, branch: Seq<char> },
    CheckingStagedAfterAdd { remote: Seq<char>, branch: Seq<char> },
    Committing { remote: Seq<char>, branch: Seq<char> },
    Pushing { remote: Seq<char>, branch: Seq<char> },
    LoggingResult { result: Result<SyncOutcome, Seq<char>> },
    Finished { result: Result<SyncOutcome, Seq<char>> },
    RepositoryValid { remote: Seq<char>, branch: Seq<char> },
}

pub open spec fn result_view(r: Result<SyncOutcome, String>) -> Result<SyncOutcome, Seq<char>> {
    match r {
        Ok(o) => Ok(o),
        Err(e) => Err(e@),
    }
}

impl View for GitRun {
    type V = GitRunView;

    open spec fn view(&self) -> GitRunView {
        match self {
            GitRun::Finished { exit_code, stdout, stderr } => GitRunView::Finished {
                exit_code: *exit_code,
                stdout: stdout@,
                stderr: stderr@,
            },
            GitRun::StartFailed(e) => GitRunView::StartFailed(start_error_text(*e)),
        }
    }
}

impl View for SyncResponse {
    type V = ResponseView;

    open spec fn view(&self) -> ResponseView {
        match self {
            SyncResponse::Logged => ResponseView::Logged,
            SyncResponse::Flag(b) => ResponseView::Flag(*b),
            SyncResponse::Git(g) => ResponseView::Git(g@),
            SyncResponse::Path(p) => ResponseView::Path(
                match p {
                    Ok(s) => Ok(s@),
                    Err(e) => Err(e@),
                },
            ),
            SyncResponse::Copied(c) => ResponseView::Copied(
                match c {
                    Ok(()) => Ok(()),
                    Err(e) => Err(e@),
                },
            ),
        }
    }
}

impl View for SyncAction {
    type V = ActionView;

    open spec fn view(&self) -> ActionView {
        match self {
            SyncAction::AppendLog { level, message } => ActionView::AppendLog {
                level: level@,
                message: message@,
            },
            SyncAction::CheckExists(p) => ActionView::CheckExists(p@),
            SyncAction::CheckIsDir(p) => ActionView::CheckIsDir(p@),
            SyncAction::RunGit(args) => ActionView::RunGit(texts(args@)),
            SyncAction::Canonicalize(p) => ActionView::Canonicalize(p@),
            SyncAction::CopyRecords { sessions_dir, repo_path } => ActionView::CopyRecords {
                sessions_dir: sessions_dir@,
                repo_path: repo_path@,
            },
            SyncAction::Finish(r) => ActionView::Finish(result_view(*r)),
            SyncAction::Valid { remote, branch } => ActionView::Valid {
                remote: remote@,
                branch: branch@,
            },
        }
    }
}

impl View for SyncStage {
    type V = StageView;

    open spec fn view(&self) -> StageView {
        match self {
            SyncStage::LoggingStart => StageView::LoggingStart,
            SyncStage::CheckingExists => StageView::CheckingExists,
            SyncStage::CheckingDir => StageView::CheckingDir,
            SyncStage::ReadingTopLevel => StageView::ReadingTopLevel,
            SyncStage::CanonicalizingSelected { top_level } => StageView::CanonicalizingSelected {
                top_level: top_level@,
            },
            SyncStage::CanonicalizingTopLevel { top_level, selected_root } =>
                StageView::CanonicalizingTopLevel {
                top_level: top_level@,
                selected_root: selected_root@,
            },
            SyncStage::ReadingRemotes => StageView::ReadingRemotes,
            SyncStage::CheckingRemoteUrl { remote } => StageView::CheckingRemoteUrl {
                remote: remote@,
            },
            SyncStage::ReadingBranch { remote } => StageView::ReadingBranch { remote: remote@ },
            SyncStage::CheckingUnstaged { remote, branch } => StageView::CheckingUnstaged {
                remote: remote@,
                branch: branch@,
            },
            SyncStage::CheckingStaged { remote, branch } => StageView::CheckingStaged {
                remote: remote@,
                branch: branch@,
            },
            SyncStage::CheckingUntracked { remote, branch } => StageView::CheckingUntracked {
                remote: remote@,
                branch: branch@,
            },
            SyncStage::Copying { remote, branch } => StageView::Copying {
                remote: remote@,
                branch: branch@,
            },
            SyncStage::Adding { remote, branch } => StageView::Adding {
                remote: remote@,
                branch: branch@,
            },
            SyncStage::CheckingStagedAfterAdd { remote, branch } =>
                StageView::CheckingStagedAfterAdd { remote: remote@, branch: branch@ },
            SyncStage::Committing { remote, branch } => StageView::Committing {
                remote: remote@,
                branch: branch@,
            },
            SyncStage::Pushing { remote, branch } => StageView::Pushing {
                remote: remote@,
                branch: branch@,
            },
            SyncStage::LoggingResult { result } => StageView::LoggingResult {
                result: result_view(*result),
            },
            SyncStage::Finished { result } => StageView::Finished { result: result_view(*result) },
            SyncStage::RepositoryValid { remote, branch } => StageView::RepositoryValid {
                remote: remote@,
                branch: branch@,
            },
        }
    }
}

/// The Git arguments joined with single spaces.
pub open spec fn joined_args(args: Seq<Seq<char>>) -> Seq<char>
    decreases args.len(),
{
    if args.len() == 0 {
        Seq::empty()
    } else if args.len() == 1 {
        args[0]
    } else {
        joined_args(args.drop_last()) + " "@ + args.last()
    }
}

/// The trimmed output of a Git command that succeeded, or the error of one
/// that failed or could not start.
pub open spec fn git_text(args: Seq<Seq<char>>, run: GitRunView) -> Result<Seq<char>, Seq<char>> {
    match run {
        GitRunView::StartFailed(e) => Err(e),
        GitRunView::Finished { exit_code, stdout, stderr } => if exit_code == Some(0i32) {
            Ok(trimmed(lossy_utf8(stdout)))
        } else {
            Err("Git command failed: git "@ + joined_args(args) + output_suffix(stdout, stderr))
        },
    }
}

/// The answer of a quiet `git diff`: exit code 0 means no change, 1 a
/// change, anything else a failure described by `command`.
pub open spec fn git_flag(command: Seq<char>, run: GitRunView) -> Result<bool, Seq<char>> {
    match run {
        GitRunView::StartFailed(e) => Err(e),
        GitRunView::Finished { exit_code, stdout, stderr } => if exit_code == Some(0i32) {
            Ok(false)
        } else if exit_code == Some(1i32) {
            Ok(true)
        } else {
            Err("Git command failed: "@ + command + output_suffix(stdout, stderr))
        },
    }
}

/// The first line that is not blank, trimmed.
pub open spec fn first_remote(t: Seq<char>) -> Option<Seq<char>>
    decreases t.len(),
{
    let k = line_end(t);
    if 0 <= k <= t.len() && trimmed(t.subrange(0, k)).len() > 0 {
        Some(trimmed(t.subrange(0, k)))
    } else if k < 0 || k >= t.len() {
        None
    } else {
        first_remote(t.subrange(k + 1, t.len() as int))
    }
}

pub open spec fn unstaged_args() -> Seq<Seq<char>> {
    seq!["diff"@, "--quiet"@, "--"@, SYNC_RECORDS_PATHSPEC@]
}

pub open spec fn staged_args() -> Seq<Seq<char>> {
    seq!["diff"@, "--cached"@, "--quiet"@, "--"@, SYNC_RECORDS_PATHSPEC@]
}

pub open spec fn untracked_args() -> Seq<Seq<char>> {
    seq!["ls-files"@, "--others"@, "--exclude-standard"@, "--"@, SYNC_RECORDS_PATHSPEC@]
}

/// The work a run does on entering a stage.
pub open spec fn stage_action(req: SyncRequest, stage: StageView) -> ActionView {
    match stage {
        StageView::LoggingStart => ActionView::AppendLog { level: "started"@, message: "Git sync started."@ },
        StageView::CheckingExists => ActionView::CheckExists(req.repo_path@),
        StageView::CheckingDir => ActionView::CheckIsDir(req.repo_path@),
        StageView::ReadingTopLevel => ActionView::RunGit(seq!["rev-parse"@, "--show-toplevel"@]),
        StageView::CanonicalizingSelected { .. } => ActionView::Canonicalize(req.repo_path@),
        StageView::CanonicalizingTopLevel { top_level, .. } => ActionView::Canonicalize(trimmed(top_level)),
        StageView::ReadingRemotes => ActionView::RunGit(seq!["remote"@]),
        StageView::CheckingRemoteUrl { remote } => ActionView::RunGit(seq!["remote"@, "get-url"@, remote]),
        StageView::ReadingBranch { .. } => ActionView::RunGit(seq!["branch"@, "--show-current"@]),
        StageView::CheckingUnstaged { .. } => ActionView::RunGit(unstaged_args()),
        StageView::CheckingStaged { .. } => ActionView::RunGit(staged_args()),
        StageView::CheckingUntracked { .. } => ActionView::RunGit(untracked_args()),
        StageView::Copying { .. } => ActionView::CopyRecords {
            sessions_dir: req.sessions_dir@,
            repo_path: req.repo_path@,
        },
        StageView::Adding { .. } => ActionView::RunGit(seq!["add"@, "--"@, SYNC_JSONL_PATHSPEC@]),
        StageView::CheckingStagedAfterAdd { .. } => ActionView::RunGit(staged_args()),
        StageView::Committing { .. } => ActionView::RunGit(
            seq!["commit"@, "-m"@, COMMIT_MESSAGE@, "-m"@, req.commit_body@, "--"@, SYNC_JSONL_PATHSPEC@],
        ),
        StageView::Pushing { remote, branch } => ActionView::RunGit(seq!["push"@, remote, "HEAD:"@ + branch]),
        StageView::LoggingResult { result } => {
            let (level, message) = result_log(result, req.sessions_dir@, req.repo_path@);
            ActionView::AppendLog { level, message }
        },
        StageView::Finished { result } => ActionView::Finish(result),
        StageView::RepositoryValid { remote, branch } => ActionView::Valid { remote, branch },
    }
}

/// The kind of result a stage waits for.
pub open spec fn answers(stage: StageView, resp: ResponseView) -> bool {
    match stage {
        StageView::LoggingStart | StageView::LoggingResult { .. } => resp is Logged,
        StageView::CheckingExists | StageView::CheckingDir => resp is Flag,
        StageView::CanonicalizingSelected { .. } | StageView::CanonicalizingTopLevel { .. } => resp is Path,
        StageView::Copying { .. } => resp is Copied,
        StageView::Finished { .. } | StageView::RepositoryValid { .. } => true,
        _ => resp is Git,
    }
}

pub open spec fn git_of(resp: ResponseView) -> GitRunView {
    match resp {
        ResponseView::Git(g) => g,
        _ => GitRunView::StartFailed(Seq::empty()),
    }
}

/// A failure: logged in a sync run, final in a validation run.
pub open spec fn fail(validate_only: bool, e: Seq<char>) -> StageView {
    if validate_only {
        StageView::Finished { result: Err(e) }
    } else {
        StageView::LoggingResult { result: Err(e) }
    }
}

pub open spec fn outcome(o: SyncOutcome) -> StageView {
    StageView::LoggingResult { result: Ok(o) }
}

/// The stage a run moves to from `stage` on the result `resp`.
pub open spec fn next_stage(
    req: SyncRequest,
    windows: bool,
    validate_only: bool,
    stage: StageView,
    resp: ResponseView,
) -> StageView {
    match stage {
        StageView::LoggingStart => StageView::CheckingExists,
        StageView::CheckingExists => if resp == ResponseView::Flag(true) {
            StageView::CheckingDir
        } else {
            fail(validate_only, "The selected folder does not exist."@)
        },
        StageView::CheckingDir => if resp == ResponseView::Flag(true) {
            StageView::ReadingTopLevel
        } else {
            fail(validate_only, "The selected path is not a folder."@)
        },
        StageView::ReadingTopLevel => match git_text(seq!["rev-parse"@, "--show-toplevel"@], git_of(resp)) {
            Ok(top) => StageView::CanonicalizingSelected { top_level: top },
            Err(e) => fail(validate_only, e),
        },
        StageView::CanonicalizingSelected { top_level } => match resp {
            ResponseView::Path(Ok(p)) => StageView::CanonicalizingTopLevel { top_level, selected_root: p },
            ResponseView::Path(Err(e)) => fail(validate_only, "Failed to read folder path: "@ + e),
            _ => fail(validate_only, Seq::empty()),
        },
        StageView::CanonicalizingTopLevel { selected_root, .. } => match resp {
            ResponseView::Path(Ok(p)) => if same_path_spec(selected_root, p, windows) {
                StageView::ReadingRemotes
            } else {
                fail(validate_only, "Please choose the Git repository root folder."@)
            },
            ResponseView::Path(Err(e)) => fail(validate_only, "Failed to read folder path: "@ + e),
            _ => fail(validate_only, Seq::empty()),
        },
        StageView::ReadingRemotes => match git_text(seq!["remote"@], git_of(resp)) {
            Ok(remotes) => match first_remote(remotes) {
                Some(remote) => StageView::CheckingRemoteUrl { remote },
                None => fail(validate_only, "The selected Git repository has no remote configured."@),
            },
            Err(e) => fail(validate_only, e),
        },
        StageView::CheckingRemoteUrl { remote } => match git_text(seq!["remote"@, "get-url"@, remote], git_of(resp)) {
            Ok(_) => StageView::ReadingBranch { remote },
            Err(e) => fail(validate_only, e),
        },
        StageView::ReadingBranch { remote } => match git_text(seq!["branch"@, "--show-current"@], git_of(resp)) {
            Ok(b) => if trimmed(b).len() == 0 {
                fail(validate_only, "The selected Git repository is in detached HEAD state."@)
            } else if validate_only {
                StageView::RepositoryValid { remote, branch: trimmed(b) }
            } else {
                StageView::CheckingUnstaged { remote, branch: trimmed(b) }
            },
            Err(e) => fail(validate_only, e),
        },
        StageView::CheckingUnstaged { remote, branch } => match git_flag(
            "git diff --quiet -- "@ + SYNC_RECORDS_PATHSPEC@,
            git_of(resp),
        ) {
            Ok(true) => outcome(SyncOutcome::SkippedDirty),
            Ok(false) => StageView::CheckingStaged { remote, branch },
            Err(e) => fail(validate_only, e),
        },
        StageView::CheckingStaged { remote, branch } => match git_flag(
            "git diff --cached --quiet -- "@ + SYNC_RECORDS_PATHSPEC@,
            git_of(resp),
        ) {
            Ok(true) => outcome(SyncOutcome::SkippedDirty),
            Ok(false) => StageView::CheckingUntracked { remote, branch },
            Err(e) => fail(validate_only, e),
        },
        StageView::CheckingUntracked { remote, branch } => match git_text(untracked_args(), git_of(resp)) {
            Ok(out) => if trimmed(out).len() > 0 {
                outcome(SyncOutcome::SkippedDirty)
            } else {
                StageView::Copying { remote, branch }
            },
            Err(e) => fail(validate_only, e),
        },
        StageView::Copying { remote, branch } => match resp {
            ResponseView::Copied(Ok(())) => StageView::Adding { remote, branch },
            ResponseView::Copied(Err(e)) => fail(validate_only, e),
            _ => fail(validate_only, Seq::empty()),
        },
        StageView::Adding { remote, branch } => match git_text(
            seq!["add"@, "--"@, SYNC_JSONL_PATHSPEC@],
            git_of(resp),
        ) {
            Ok(_) => StageView::CheckingStagedAfterAdd { remote, branch },
            Err(e) => fail(validate_only, e),
        },
        StageView::CheckingStagedAfterAdd { remote, branch } => match git_flag(
            "git diff --cached --quiet -- "@ + SYNC_RECORDS_PATHSPEC@,
            git_of(resp),
        ) {
            Ok(true) => StageView::Committing { remote, branch },
            Ok(false) => outcome(SyncOutcome::NoChanges),
            Err(e) => fail(validate_only, e),
        },
        StageView::Committing { remote, branch } => match git_text(
            seq!["commit"@, "-m"@, COMMIT_MESSAGE@, "-m"@, req.commit_body@, "--"@, SYNC_JSONL_PATHSPEC@],
            git_of(resp),
        ) {
            Ok(_) => StageView::Pushing { remote, branch },
            Err(e) => fail(validate_only, e),
        },
        StageView::Pushing { remote, branch } => match git_text(
            seq!["push"@, remote, "HEAD:"@ + branch],
            git_of(resp),
        ) {
            Ok(_) => outcome(SyncOutcome::Pushed),
            Err(e) => fail(validate_only, e),
        },
        StageView::LoggingResult { result } => StageView::Finished { result },
        StageView::Finished { result } => StageView::Finished { result },
        StageView::RepositoryValid { remote, branch } => StageView::RepositoryValid { remote, branch },
    }
}

/// A sync run: the request, whether paths compare as on Windows, whether
/// the run only validates the repository, and the current stage.
pub struct SyncRun {
    pub request: SyncRequest,
    pub windows: bool,
    pub validate_only: bool,
    pub stage: SyncStage,
}

fn git_words(a: &str, b: &str) -> (v: Vec<String>)
    ensures
        texts(v@) == seq![a@, b@],
{
    let mut v: Vec<String> = Vec::new();
    push_word(&mut v, a);
    push_word(&mut v, b);
    assert(texts(v@) =~= seq![a@, b@]);
    v
}

fn diff_args(cached: bool) -> (v: Vec<String>)
    ensures
        texts(v@) == if cached {
            staged_args()
        } else {
            unstaged_args()
        },
{
    let mut v: Vec<String> = Vec::new();
    push_word(&mut v, "diff");
    if cached {
        push_word(&mut v, "--cached");
    }
    push_word(&mut v, "--quiet");
    push_word(&mut v, "--");
    push_word(&mut v, SYNC_RECORDS_PATHSPEC);
    assert(texts(v@) =~= if cached {
        staged_args()
    } else {
        unstaged_args()
    });
    v
}

fn untracked_git_args() -> (v: Vec<String>)
    ensures
        texts(v@) == untracked_args(),
{
    let mut v: Vec<String> = Vec::new();
    push_word(&mut v, "ls-files");
    push_word(&mut v, "--others");
    push_word(&mut v, "--exclude-standard");
    push_word(&mut v, "--");
    push_word(&mut v, SYNC_RECORDS_PATHSPEC);
    assert(texts(v@) =~= untracked_args());
    v
}

fn add_args() -> (v: Vec<String>)
    ensures
        texts(v@) == seq!["add"@, "--"@, SYNC_JSONL_PATHSPEC@],
{
    let mut v: Vec<String> = Vec::new();
    push_word(&mut v, "add");
    push_word(&mut v, "--");
    push_word(&mut v, SYNC_JSONL_PATHSPEC);
    assert(texts(v@) =~= seq!["add"@, "--"@, SYNC_JSONL_PATHSPEC@]);
    v
}

fn commit_args(body: &String) -> (v: Vec<String>)
    ensures
        texts(v@) == seq!["commit"@, "-m"@, COMMIT_MESSAGE@, "-m"@, body@, "--"@, SYNC_JSONL_PATHSPEC@],
{
    let mut v: Vec<String> = Vec::new();
    push_word(&mut v, "commit");
    push_word(&mut v, "-m");
    push_word(&mut v, COMMIT_MESSAGE);
    push_word(&mut v, "-m");
    push_string(&mut v, body.clone());
    push_word(&mut v, "--");
    push_word(&mut v, SYNC_JSONL_PATHSPEC);
    assert(texts(v@) =~= seq!["commit"@, "-m"@, COMMIT_MESSAGE@, "-m"@, body@, "--"@, SYNC_JSONL_PATHSPEC@]);
    v
}

fn push_args(remote: &String, branch: &String) -> (v: Vec<String>)
    ensures
        texts(v@) == seq!["push"@, remote@, "HEAD:"@ + branch@],
{
    let mut v: Vec<String> = Vec::new();
    push_word(&mut v, "push");
    push_string(&mut v, remote.clone());
    let mut target = owned("HEAD:");
    push_text(&mut target, branch.as_str());
    push_string(&mut v, target);
    assert(texts(v@) =~= seq!["push"@, remote@, "HEAD:"@ + branch@]);
    v
}

fn remote_url_args(remote: &String) -> (v: Vec<String>)
    ensures
        texts(v@) == seq!["remote"@, "get-url"@, remote@],
{
    let mut v: Vec<String> = Vec::new();
    push_word(&mut v, "remote");
    push_word(&mut v, "get-url");
    push_string(&mut v, remote.clone());
    assert(texts(v@) =~= seq!["remote"@, "get-url"@, remote@]);
    v
}

fn remote_args() -> (v: Vec<String>)
    ensures
        texts(v@) == seq!["remote"@],
{
    let mut v: Vec<String> = Vec::new();
    push_word(&mut v, "remote");
    assert(texts(v@) =~= seq!["remote"@]);
    v
}

/// The Git arguments joined with single spaces.
fn join_args(args: &Vec<String>) -> (r: String)
    ensures
        r@ == joined_args(texts(args@)),
{
    let mut s = String::new();
    let mut i: usize = 0;
    while i < args.len()
        invariant
            i <= args@.len(),
            s@ == joined_args(texts(args@).take(i as int)),
        decreases args@.len() - i,
    {
        if i > 0 {
            push_text(&mut s, " ");
        }
        push_text(&mut s, args[i].as_str());
        proof {
            let t = texts(args@);
            assert(t.take(i + 1).drop_last() =~= t.take(i as int));
            assert(t.take(i + 1).last() == args@[i as int]@);
            if i == 0 {
                assert(t.take(1) =~= seq![args@[0]@]);
            }
        }
        i = i + 1;
    }
    assert(texts(args@).take(args@.len() as int) =~= texts(args@));
    s
}

pub open spec fn text_result(r: Result<String, String>) -> Result<Seq<char>, Seq<char>> {
    match r {
        Ok(s) => Ok(s@),
        Err(e) => Err(e@),
    }
}

/// The trimmed output of a Git command that succeeded, or its error (see `git_text`).
fn run_git(args: &Vec<String>, run: &GitRun) -> (r: Result<String, String>)
    ensures
        text_result(r) == git_text(texts(args@), run@),
{
    match run {
        GitRun::StartFailed(e) => Err(command_start_error(e)),
        GitRun::Finished { exit_code, stdout, stderr } => {
            let success = match exit_code {
                Some(c) => *c == 0,
                None => false,
            };
            if success {
                let out = utf8_lossy(stdout.as_slice());
                Ok(trim(out.as_str()))
            } else {
                let mut message = owned("Git command failed: git ");
                let joined = join_args(args);
                push_text(&mut message, joined.as_str());
                let suffix = command_output_suffix(stdout.as_slice(), stderr.as_slice());
                push_text(&mut message, suffix.as_str());
                Err(message)
            }
        },
    }
}

pub open spec fn flag_result(r: Result<bool, String>) -> Result<bool, Seq<char>> {
    match r {
        Ok(b) => Ok(b),
        Err(e) => Err(e@),
    }
}

/// Whether a quiet `git diff` found changes (see `git_flag`).
fn diff_has_changes(cached: bool, run: &GitRun) -> (r: Result<bool, String>)
    ensures
        flag_result(r) == git_flag(
            if cached {
                "git diff --cached --quiet -- "@ + SYNC_RECORDS_PATHSPEC@
            } else {
                "git diff --quiet -- "@ + SYNC_RECORDS_PATHSPEC@
            },
            run@,
        ),
{
    match run {
        GitRun::StartFailed(e) => Err(command_start_error(e)),
        GitRun::Finished { exit_code, stdout, stderr } => {
            let code: i32 = match exit_code {
                Some(c) => *c,
                None => -1,
            };
            if exit_code.is_some() && code == 0 {
                Ok(false)
            } else if exit_code.is_some() && code == 1 {
                Ok(true)
            } else {
                let mut message = owned("Git command failed: ");
                if cached {
                    push_text(&mut message, "git diff --cached --quiet -- ");
                } else {
                    push_text(&mut message, "git diff --quiet -- ");
                }
                push_text(&mut message, SYNC_RECORDS_PATHSPEC);
                let suffix = command_output_suffix(stdout.as_slice(), stderr.as_slice());
                push_text(&mut message, suffix.as_str());
                assert(message@ =~= "Git command failed: "@ + (if cached {
                    "git diff --cached --quiet -- "@ + SYNC_RECORDS_PATHSPEC@
                } else {
                    "git diff --quiet -- "@ + SYNC_RECORDS_PATHSPEC@
                }) + output_suffix(stdout@, stderr@));
                Err(message)
            }
        },
    }
}

fn sub_chars(v: &[char], a: usize, b: usize) -> (r: Vec<char>)
    requires
        a <= b <= v@.len(),
    ensures
        r@ == v@.subrange(a as int, b as int),
{
    let mut r: Vec<char> = Vec::new();
    let mut i = a;
    while i < b
        invariant
            a <= i <= b,
            b <= v@.len(),
            r@ == v@.subrange(a as int, i as int),
        decreases b - i,
    {
        r.push(v[i]);
        i = i + 1;
        assert(r@ =~= v@.subrange(a as int, i as int));
    }
    r
}

pub open spec fn opt_text_view(o: Option<String>) -> Option<Seq<char>> {
    match o {
        Some(s) => Some(s@),
        None => None,
    }
}

/// The first remote named in `git remote` output (see `first_remote`).
fn first_remote_of(t: &str) -> (r: Option<String>)
    ensures
        opt_text_view(r) == first_remote(t@),
{
    let chars = chars_of(t);
    let n = chars.len();
    let mut start: usize = 0;
    assert(t@.subrange(0, n as int) =~= t@);
    loop
        invariant
            start <= n,
            n == chars@.len(),
            chars@ == t@,
            first_remote(t@) == first_remote(t@.subrange(start as int, n as int)),
        decreases n - start,
    {
        let ghost rest = t@.subrange(start as int, n as int);
        let mut k = start;
        while k < n && chars[k] != '\n'
            invariant
                start <= k <= n,
                n == chars@.len(),
                forall|i: int| start <= i < k ==> #[trigger] chars@[i] != '\n',
            decreases n - k,
        {
            k = k + 1;
        }
        proof {
            assert forall|i: int| 0 <= i < k - start implies #[trigger] rest[i] != '\n' by {
                assert(rest[i] == chars@[start + i]);
            }
            lemma_line_end(rest, k - start);
            assert(rest.subrange(0, k - start) =~= chars@.subrange(start as int, k as int));
        }
        let line = sub_chars(chars.as_slice(), start, k);
        let trimmed_line = trim_chars(line.as_slice());
        if trimmed_line.len() > 0 {
            return Some(text_of(trimmed_line.as_slice()));
        }
        if k >= n {
            return None;
        }
        proof {
            assert(rest.subrange(k - start + 1, rest.len() as int) =~= t@.subrange(k + 1, n as int));
        }
        start = k + 1;
    }
}

fn result_copy(r: &Result<SyncOutcome, String>) -> (c: Result<SyncOutcome, String>)
    ensures
        result_view(c) == result_view(*r),
{
    match r {
        Ok(o) => Ok(*o),
        Err(e) => Err(e.clone()),
    }
}

/// The work for entering `stage` (see `stage_action`).
fn action_for(request: &SyncRequest, stage: &SyncStage) -> (a: SyncAction)
    ensures
        a@ == stage_action(*request, stage@),
{
    match stage {
        SyncStage::LoggingStart => SyncAction::AppendLog {
            level: owned("started"),
            message: owned("Git sync started."),
        },
        SyncStage::CheckingExists => SyncAction::CheckExists(request.repo_path.clone()),
        SyncStage::CheckingDir => SyncAction::CheckIsDir(request.repo_path.clone()),
        SyncStage::ReadingTopLevel => SyncAction::RunGit(git_words("rev-parse", "--show-toplevel")),
        SyncStage::CanonicalizingSelected { .. } => SyncAction::Canonicalize(request.repo_path.clone()),
        SyncStage::CanonicalizingTopLevel { top_level, .. } => SyncAction::Canonicalize(
            trim(top_level.as_str()),
        ),
        SyncStage::ReadingRemotes => SyncAction::RunGit(remote_args()),
        SyncStage::CheckingRemoteUrl { remote } => SyncAction::RunGit(remote_url_args(remote)),
        SyncStage::ReadingBranch { .. } => SyncAction::RunGit(git_words("branch", "--show-current")),
        SyncStage::CheckingUnstaged { .. } => SyncAction::RunGit(diff_args(false)),
        SyncStage::CheckingStaged { .. } => SyncAction::RunGit(diff_args(true)),
        SyncStage::CheckingUntracked { .. } => SyncAction::RunGit(untracked_git_args()),
        SyncStage::Copying { .. } => SyncAction::CopyRecords {
            sessions_dir: request.sessions_dir.clone(),
            repo_path: request.repo_path.clone(),
        },
        SyncStage::Adding { .. } => SyncAction::RunGit(add_args()),
        SyncStage::CheckingStagedAfterAdd { .. } => SyncAction::RunGit(diff_args(true)),
        SyncStage::Committing { .. } => SyncAction::RunGit(commit_args(&request.commit_body)),
        SyncStage::Pushing { remote, branch } => SyncAction::RunGit(push_args(remote, branch)),
        SyncStage::LoggingResult { result } => {
            let (level, message) = match result {
                Ok(SyncOutcome::Pushed) => (
                    owned("success"),
                    owned("Git sync pushed record changes successfully."),
                ),
                Ok(SyncOutcome::NoChanges) => (
                    owned("success"),
                    owned("Git sync completed; no record changes to push."),
                ),
                Ok(SyncOutcome::SkippedDirty) => (
                    owned("skipped"),
                    owned(
                        "Git sync skipped because focustrail-records/sessions has uncommitted, staged, or untracked changes.",
                    ),
                ),
                Err(e) => (owned("failed"), failure_log_message(e.as_str(), request)),
            };
            SyncAction::AppendLog { level, message }
        },
        SyncStage::Finished { result } => SyncAction::Finish(result_copy(result)),
        SyncStage::RepositoryValid { remote, branch } => SyncAction::Valid {
            remote: remote.clone(),
            branch: branch.clone(),
        },
    }
}

fn fail_stage(validate_only: bool, e: String) -> (s: SyncStage)
    ensures
        s@ == fail(validate_only, e@),
{
    if validate_only {
        SyncStage::Finished { result: Err(e) }
    } else {
        SyncStage::LoggingResult { result: Err(e) }
    }
}

fn outcome_stage(o: SyncOutcome) -> (s: SyncStage)
    ensures
        s@ == outcome(o),
{
    SyncStage::LoggingResult { result: Ok(o) }
}

/// The stage after `stage` on the result `response` (see `next_stage`).
fn decide(
    request: &SyncRequest,
    windows: bool,
    validate_only: bool,
    stage: SyncStage,
    response: SyncResponse,
) -> (s: SyncStage)
    requires
        answers(stage@, response@),
    ensures
        s@ == next_stage(*request, windows, validate_only, stage@, response@),
{
    match stage {
        SyncStage::LoggingStart => SyncStage::CheckingExists,
        SyncStage::CheckingExists => match response {
            SyncResponse::Flag(true) => SyncStage::CheckingDir,
            _ => fail_stage(validate_only, owned("The selected folder does not exist.")),
        },
        SyncStage::CheckingDir => match response {
            SyncResponse::Flag(true) => SyncStage::ReadingTopLevel,
            _ => fail_stage(validate_only, owned("The selected path is not a folder.")),
        },
        SyncStage::ReadingTopLevel => match response {
            SyncResponse::Git(g) => match run_git(&git_words("rev-parse", "--show-toplevel"), &g) {
                Ok(top) => SyncStage::CanonicalizingSelected { top_level: top },
                Err(e) => fail_stage(validate_only, e),
            },
            _ => {
                assert(false);
                fail_stage(validate_only, String::new())
            },
        },
        SyncStage::CanonicalizingSelected { top_level } => match response {
            SyncResponse::Path(Ok(p)) => SyncStage::CanonicalizingTopLevel { top_level, selected_root: p },
            SyncResponse::Path(Err(e)) => {
                let mut m = owned("Failed to read folder path: ");
                push_text(&mut m, e.as_str());
                fail_stage(validate_only, m)
            },
            _ => {
                assert(false);
                fail_stage(validate_only, String::new())
            },
        },
        SyncStage::CanonicalizingTopLevel { top_level, selected_root } => match response {
            SyncResponse::Path(Ok(p)) => if same_path(selected_root.as_str(), p.as_str(), windows) {
                SyncStage::ReadingRemotes
            } else {
                fail_stage(validate_only, owned("Please choose the Git repository root folder."))
            },
            SyncResponse::Path(Err(e)) => {
                let mut m = owned("Failed to read folder path: ");
                push_text(&mut m, e.as_str());
                fail_stage(validate_only, m)
            },
            _ => {
                assert(false);
                fail_stage(validate_only, String::new())
            },
        },
        SyncStage::ReadingRemotes => match response {
            SyncResponse::Git(g) => match run_git(&remote_args(), &g) {
                Ok(remotes) => match first_remote_of(remotes.as_str()) {
                    Some(remote) => SyncStage::CheckingRemoteUrl { remote },
                    None => fail_stage(validate_only, owned("The selected Git repository has no remote configured.")),
                },
                Err(e) => fail_stage(validate_only, e),
            },
            _ => {
                assert(false);
                fail_stage(validate_only, String::new())
            },
        },
        SyncStage::CheckingRemoteUrl { remote } => match response {
            SyncResponse::Git(g) => match run_git(&remote_url_args(&remote), &g) {
                Ok(_) => SyncStage::ReadingBranch { remote },
                Err(e) => fail_stage(validate_only, e),
            },
            _ => {
                assert(false);
                fail_stage(validate_only, String::new())
            },
        },
        SyncStage::ReadingBranch { remote } => match response {
            SyncResponse::Git(g) => match run_git(&git_words("branch", "--show-current"), &g) {
                Ok(b) => {
                    let branch = trim(b.as_str());
                    if branch.as_str().is_empty() {
                        fail_stage(validate_only, owned("The selected Git repository is in detached HEAD state."))
                    } else if validate_only {
                        SyncStage::RepositoryValid { remote, branch }
                    } else {
                        SyncStage::CheckingUnstaged { remote, branch }
                    }
                },
                Err(e) => fail_stage(validate_only, e),
            },
            _ => {
                assert(false);
                fail_stage(validate_only, String::new())
            },
        },
        SyncStage::CheckingUnstaged { remote, branch } => match response {
            SyncResponse::Git(g) => match diff_has_changes(false, &g) {
                Ok(true) => outcome_stage(SyncOutcome::SkippedDirty),
                Ok(false) => SyncStage::CheckingStaged { remote, branch },
                Err(e) => fail_stage(validate_only, e),
            },
            _ => {
                assert(false);
                fail_stage(validate_only, String::new())
            },
        },
        SyncStage::CheckingStaged { remote, branch } => match response {
            SyncResponse::Git(g) => match diff_has_changes(true, &g) {
                Ok(true) => outcome_stage(SyncOutcome::SkippedDirty),
                Ok(false) => SyncStage::CheckingUntracked { remote, branch },
                Err(e) => fail_stage(validate_only, e),
            },
            _ => {
                assert(false);
                fail_stage(validate_only, String::new())
            },
        },
        SyncStage::CheckingUntracked { remote, branch } => match response {
            SyncResponse::Git(g) => match run_git(&untracked_git_args(), &g) {
                Ok(out) => {
                    let t = trim(out.as_str());
                    if !t.as_str().is_empty() {
                        outcome_stage(SyncOutcome::SkippedDirty)
                    } else {
                        SyncStage::Copying { remote, branch }
                    }
                },
                Err(e) => fail_stage(validate_only, e),
            },
            _ => {
                assert(false);
                fail_stage(validate_only, String::new())
            },
        },
        SyncStage::Copying { remote, branch } => match response {
            SyncResponse::Copied(Ok(())) => SyncStage::Adding { remote, branch },
            SyncResponse::Copied(Err(e)) => fail_stage(validate_only, e),
            _ => {
                assert(false);
                fail_stage(validate_only, String::new())
            },
        },
        SyncStage::Adding { remote, branch } => match response {
            SyncResponse::Git(g) => match run_git(&add_args(), &g) {
                Ok(_) => SyncStage::CheckingStagedAfterAdd { remote, branch },
                Err(e) => fail_stage(validate_only, e),
            },
            _ => {
                assert(false);
                fail_stage(validate_only, String::new())
            },
        },
        SyncStage::CheckingStagedAfterAdd { remote, branch } => match response {
            SyncResponse::Git(g) => match diff_has_changes(true, &g) {
                Ok(true) => SyncStage::Committing { remote, branch },
                Ok(false) => outcome_stage(SyncOutcome::NoChanges),
                Err(e) => fail_stage(validate_only, e),
            },
            _ => {
                assert(false);
                fail_stage(validate_only, String::new())
            },
        },
        SyncStage::Committing { remote, branch } => match response {
            SyncResponse::Git(g) => match run_git(&commit_args(&request.commit_body), &g) {
                Ok(_) => SyncStage::Pushing { remote, branch },
                Err(e) => fail_stage(validate_only, e),
            },
            _ => {
                assert(false);
                fail_stage(validate_only, String::new())
            },
        },
        SyncStage::Pushing { remote, branch } => match response {
            SyncResponse::Git(g) => match run_git(&push_args(&remote, &branch), &g) {
                Ok(_) => outcome_stage(SyncOutcome::Pushed),
                Err(e) => fail_stage(validate_only, e),
            },
            _ => {
                assert(false);
                fail_stage(validate_only, String::new())
            },
        },
        SyncStage::LoggingResult { result } => SyncStage::Finished { result },
        SyncStage::Finished { result } => SyncStage::Finished { result },
        SyncStage::RepositoryValid { remote, branch } => SyncStage::RepositoryValid { remote, branch },
    }
}

impl SyncRun {
    /// Starts a sync run: its first step logs that the sync started.
    pub fn start(request: SyncRequest, windows: bool) -> (r: (SyncRun, SyncAction))
        ensures
            r.0.request == request,
            r.0.windows == windows,
            !r.0.validate_only,
            r.0.stage@ == StageView::LoggingStart,
            r.1@ == stage_action(request, StageView::LoggingStart),
    {
        let stage = SyncStage::LoggingStart;
        let action = action_for(&request, &stage);
        (SyncRun { request, windows, validate_only: false, stage }, action)
    }

    /// Starts a run that only checks that a folder is the root of a Git
    /// repository with a remote and a current branch; nothing is logged.
    pub fn validate(repo_path: String, windows: bool) -> (r: (SyncRun, SyncAction))
        ensures
            r.0.request.repo_path == repo_path,
            r.0.windows == windows,
            r.0.validate_only,
            r.0.stage@ == StageView::CheckingExists,
            r.1@ == stage_action(r.0.request, StageView::CheckingExists),
    {
        let request = SyncRequest {
            sessions_dir: String::new(),
            repo_path,
            log_path: String::new(),
            commit_body: String::new(),
        };
        let stage = SyncStage::CheckingExists;
        let action = action_for(&request, &stage);
        (SyncRun { request, windows, validate_only: true, stage }, action)
    }

    /// Moves the run on with the result of the work its stage asked for and
    /// returns the work for the next stage.
    pub fn step(self, response: SyncResponse) -> (r: (SyncRun, SyncAction))
        requires
            answers(self.stage@, response@),
        ensures
            r.0.request == self.request,
            r.0.windows == self.windows,
            r.0.validate_only == self.validate_only,
            r.0.stage@ == next_stage(self.request, self.windows, self.validate_only, self.stage@, response@),
            r.1@ == stage_action(self.request, r.0.stage@),
    {
        let SyncRun { request, windows, validate_only, stage } = self;
        let next = decide(&request, windows, validate_only, stage, response);
        let action = action_for(&request, &next);
        (SyncRun { request, windows, validate_only, stage: next }, action)
    }

    /// Whether the run is over.
    pub fn is_finished(&self) -> (r: bool)
        ensures
            r == (self.stage@ is Finished || self.stage@ is RepositoryValid),
    {
        match self.stage {
            SyncStage::Finished { .. } => true,
            SyncStage::RepositoryValid { .. } => true,
            _ => false,
        }
    }
}

} // verus!
