//! The version-control side of the interpreter: raw git results, their
//! semantic classification, and the argument vectors of the commands the
//! refresh engine relies on.
//!
//! Running the `git` process itself is input/output and lives outside the
//! library; everything that decides what a result means is here.

use vstd::prelude::*;

verus! {

use crate::text::{contains_seq, contains_substring, split_non_empty, split_non_empty_spec};
use vstd::string::StringExecFns;

/// How a fast-forward-only pull ended. There is no structured exit code for
/// this distinction; it is read off the command's textual output.
#[derive(Debug, PartialEq, Eq, Structural, Clone, Copy)]
pub enum PullFastForwardStatus {
    AlreadyUpToDate,
    FastForwarded,
    Abort,
}

/// What a finished git command left behind, uninterpreted.
#[derive(Debug)]
pub struct RawGitCommandOutput {
    pub status: i32,
    pub stdout: String,
    pub stderr: String,
}

/// The spec-level shape of a raw result.
pub ghost struct RawOutputModel {
    pub status: int,
    pub stdout: Seq<char>,
    pub stderr: Seq<char>,
}

impl View for RawGitCommandOutput {
    type V = RawOutputModel;

    open spec fn view(&self) -> RawOutputModel {
        RawOutputModel { status: self.status as int, stdout: self.stdout@, stderr: self.stderr@ }
    }
}

/// A git command that failed fatally, could not be started, or had no
/// working directory to run in. Telling these apart matters: a fatal exit
/// is often a meaningful domain outcome, while the other two mean the
/// environment is broken and the whole operation must stop.
#[derive(Debug)]
pub enum Error {
    Raw(RawGitCommandOutput),
    FailedToExecute(String),
    NoWorkingDirectory,
    CommandNotFound,
}

/// The spec-level shape of a git [`Error`].
pub ghost enum GitErrorModel {
    Raw(RawOutputModel),
    FailedToExecute(Seq<char>),
    NoWorkingDirectory,
    CommandNotFound,
}

impl View for Error {
    type V = GitErrorModel;

    open spec fn view(&self) -> GitErrorModel {
        match self {
            Error::Raw(raw) => GitErrorModel::Raw(raw@),
            Error::FailedToExecute(m) => GitErrorModel::FailedToExecute(m@),
            Error::NoWorkingDirectory => GitErrorModel::NoWorkingDirectory,
            Error::CommandNotFound => GitErrorModel::CommandNotFound,
        }
    }
}

/// The text a user sees for a git error: each variant has its own stable
/// message.
pub open spec fn git_error_message(e: GitErrorModel) -> Seq<char> {
    match e {
        GitErrorModel::Raw(raw) => raw.stderr,
        GitErrorModel::FailedToExecute(m) => "Failed to execute git command: "@ + m,
        GitErrorModel::NoWorkingDirectory => "repository has no working directory"@,
        GitErrorModel::CommandNotFound => "git command not found"@,
    }
}

impl Error {
    pub fn message(&self) -> (m: String)
        ensures
            m@ == git_error_message(self@),
    {
        match self {
            Error::Raw(raw) => raw.stderr.clone(),
            Error::FailedToExecute(err) => {
                let mut m = "Failed to execute git command: ".to_owned();
                m.append(err.as_str());
                m
            },
            Error::NoWorkingDirectory => "repository has no working directory".to_owned(),
            Error::CommandNotFound => "git command not found".to_owned(),
        }
    }
}

/// A raw git result together with the value it was interpreted to.
#[derive(Debug)]
pub struct GitCommandOutput<T> {
    pub raw: RawGitCommandOutput,
    pub interpreted_to: T,
}

impl RawGitCommandOutput {
    /// A git command succeeded exactly when it exited with status zero.
    pub fn success(&self) -> (r: bool)
        ensures
            r == (self.status == 0),
    {
        self.status == 0
    }

    /// Pairs this raw result with an already-computed interpretation.
    pub fn interpret_to<T>(self, item: T) -> (r: Result<GitCommandOutput<T>, Error>)
        ensures
            r matches Ok(out) && out.raw == self && out.interpreted_to == item,
    {
        Ok(GitCommandOutput { raw: self, interpreted_to: item })
    }

    /// Treats any non-zero exit as fatal, keeping the raw result either way.
    pub fn interpret_unit(self) -> (r: Result<GitCommandOutput<()>, Error>)
        ensures
            self.status == 0 ==> (r matches Ok(out) && out.raw == self),
            self.status != 0 ==> (r matches Err(e) && e matches Error::Raw(raw) && raw == self),
    {
        if self.status == 0 {
            Ok(GitCommandOutput { raw: self, interpreted_to: () })
        } else {
            Err(Error::Raw(self))
        }
    }
}

/// How the output of `git pull --ff-only` is read: the tool prints
/// "Already up to date." when there was nothing to pull and mentions
/// "Fast-forward" when it advanced the branch; anything else means the
/// pull could not fast-forward.
pub open spec fn pull_status_of(stdout: Seq<char>) -> PullFastForwardStatus {
    if contains_seq(stdout, "Already up to date."@) {
        PullFastForwardStatus::AlreadyUpToDate
    } else if contains_seq(stdout, "Fast-forward"@) {
        PullFastForwardStatus::FastForwarded
    } else {
        PullFastForwardStatus::Abort
    }
}

/// Classifies the textual output of a fast-forward-only pull.
pub fn classify_pull_output(stdout: &str) -> (r: PullFastForwardStatus)
    ensures
        r == pull_status_of(stdout@),
{
    if contains_substring(stdout, "Already up to date.") {
        PullFastForwardStatus::AlreadyUpToDate
    } else if contains_substring(stdout, "Fast-forward") {
        PullFastForwardStatus::FastForwarded
    } else {
        PullFastForwardStatus::Abort
    }
}

/// A pull that matches neither phrase is an aborted fast-forward: the
/// divergence is reported to the caller, never resolved here.
pub proof fn lemma_unrecognized_pull_output_aborts(stdout: Seq<char>)
    requires
        !contains_seq(stdout, "Already up to date."@),
        !contains_seq(stdout, "Fast-forward"@),
    ensures
        pull_status_of(stdout) == PullFastForwardStatus::Abort,
{
}

/// The lines of a branch listing, in order, empty lines dropped.
pub open spec fn split_lines_spec(s: Seq<char>) -> Seq<Seq<char>> {
    split_non_empty_spec(s, '\n')
}

/// Splits command output into its non-empty lines.
pub fn split_lines(lines: &str) -> (r: Vec<String>)
    ensures
        r.deep_view() == split_lines_spec(lines@),
{
    split_non_empty(lines, '\n')
}

/// Interprets the output of a fast-forward-only pull, tolerating a non-zero
/// exit: an aborted fast-forward is an expected outcome, not an error.
pub fn interpret_pull(raw: RawGitCommandOutput) -> (r: GitCommandOutput<PullFastForwardStatus>)
    ensures
        r.raw == raw,
        r.interpreted_to == pull_status_of(raw.stdout@),
{
    let status = classify_pull_output(raw.stdout.as_str());
    GitCommandOutput { raw, interpreted_to: status }
}

/// Interprets a branch listing: one branch name per non-empty line.
pub fn interpret_merged_branches(raw: RawGitCommandOutput) -> (r: GitCommandOutput<Vec<String>>)
    ensures
        r.raw == raw,
        r.interpreted_to.deep_view() == split_lines_spec(raw.stdout@),
{
    let branches = split_lines(raw.stdout.as_str());
    GitCommandOutput { raw, interpreted_to: branches }
}

/// Status bits reported for one changed file, as the version-control
/// library encodes them: one power of two per kind of change.
pub const STATUS_INDEX_NEW: u32 = 1;

pub const STATUS_INDEX_MODIFIED: u32 = 2;

pub const STATUS_INDEX_DELETED: u32 = 4;

pub const STATUS_WT_NEW: u32 = 128;

pub const STATUS_WT_MODIFIED: u32 = 256;

pub const STATUS_WT_DELETED: u32 = 512;

/// A file entry counts as unsaved work when any of the qualifying flags is
/// set: new, modified or deleted, in either the working tree or the index.
/// A status word can combine several flags, and any one of them makes the
/// tree dirty.
pub open spec fn is_unsaved_status(s: u32) -> bool {
    s & STATUS_INDEX_NEW != 0 || s & STATUS_INDEX_MODIFIED != 0 || s & STATUS_INDEX_DELETED != 0
        || s & STATUS_WT_NEW != 0 || s & STATUS_WT_MODIFIED != 0 || s & STATUS_WT_DELETED != 0
}

/// Is any reported file entry unsaved work?
pub fn has_unsaved_entries(statuses: &Vec<u32>) -> (r: bool)
    ensures
        r == exists|i: int|
            0 <= i < statuses@.len() && is_unsaved_status(#[trigger] statuses@[i]),
{
    let mut i: usize = 0;
    while i < statuses.len()
        invariant
            i <= statuses@.len(),
            forall|k: int| 0 <= k < i ==> !is_unsaved_status(#[trigger] statuses@[k]),
        decreases statuses@.len() - i,
    {
        let s = statuses[i];
        if s & STATUS_INDEX_NEW != 0 || s & STATUS_INDEX_MODIFIED != 0 || s & STATUS_INDEX_DELETED
            != 0 || s & STATUS_WT_NEW != 0 || s & STATUS_WT_MODIFIED != 0 || s & STATUS_WT_DELETED
            != 0 {
            return true;
        }
        i += 1;
    }
    false
}

/// The working tree is clean exactly when no entry is unsaved work.
pub fn is_clean_entries(statuses: &Vec<u32>) -> (r: bool)
    ensures
        r == !(exists|i: int|
            0 <= i < statuses@.len() && is_unsaved_status(#[trigger] statuses@[i])),
{
    !has_unsaved_entries(statuses)
}

/// The argument vector of the fetch that also prunes stale remote refs.
pub fn fetch_prune_args() -> (r: Vec<String>)
    ensures
        r.deep_view() == seq!["fetch"@, "--prune"@],
{
    let mut r: Vec<String> = Vec::new();
    r.push("fetch".to_owned());
    r.push("--prune".to_owned());
    proof {
        assert(r.deep_view() =~= seq!["fetch"@, "--prune"@]);
    }
    r
}

/// The argument vector that lists local branches already merged into HEAD.
pub fn merged_branches_args() -> (r: Vec<String>)
    ensures
        r.deep_view() == seq![
            "for-each-ref"@,
            "--format=%(refname:short)"@,
            "refs/heads/**/*"@,
            "--merged"@,
        ],
{
    let mut r: Vec<String> = Vec::new();
    r.push("for-each-ref".to_owned());
    r.push("--format=%(refname:short)".to_owned());
    r.push("refs/heads/**/*".to_owned());
    r.push("--merged".to_owned());
    proof {
        assert(r.deep_view() =~= seq![
            "for-each-ref"@,
            "--format=%(refname:short)"@,
            "refs/heads/**/*"@,
            "--merged"@,
        ]);
    }
    r
}

/// The argument vector of a fast-forward-only pull from `remote/branch`.
pub fn pull_args(remote: &str, branch: &str) -> (r: Vec<String>)
    ensures
        r.deep_view() == seq!["pull"@, "--ff-only"@, remote@, branch@],
{
    let mut r: Vec<String> = Vec::new();
    r.push("pull".to_owned());
    r.push("--ff-only".to_owned());
    r.push(remote.to_owned());
    r.push(branch.to_owned());
    proof {
        assert(r.deep_view() =~= seq!["pull"@, "--ff-only"@, remote@, branch@]);
    }
    r
}

/// The argument vector that checks out an existing local branch.
pub fn switch_args(branch: &str) -> (r: Vec<String>)
    ensures
        r.deep_view() == seq!["switch"@, branch@],
{
    let mut r: Vec<String> = Vec::new();
    r.push("switch".to_owned());
    r.push(branch.to_owned());
    proof {
        assert(r.deep_view() =~= seq!["switch"@, branch@]);
    }
    r
}

/// The argument vector that deletes a fully merged local branch.
pub fn delete_branch_args(branch: &str) -> (r: Vec<String>)
    ensures
        r.deep_view() == seq!["branch"@, "-d"@, branch@],
{
    let mut r: Vec<String> = Vec::new();
    r.push("branch".to_owned());
    r.push("-d".to_owned());
    r.push(branch.to_owned());
    proof {
        assert(r.deep_view() =~= seq!["branch"@, "-d"@, branch@]);
    }
    r
}

/// The argument vector that clones `url` into the working directory.
pub fn clone_args(url: &str) -> (r: Vec<String>)
    ensures
        r.deep_view() == seq!["clone"@, url@],
{
    let mut r: Vec<String> = Vec::new();
    r.push("clone".to_owned());
    r.push(url.to_owned());
    proof {
        assert(r.deep_view() =~= seq!["clone"@, url@]);
    }
    r
}

/// The branch the repository has checked out, reconstructed from what the
/// repository reports: no commits means there is no branch to name, and a
/// detached head has no shorthand.
pub fn current_branch_from_parts(
    is_empty: bool,
    head_shorthand: Option<String>,
    branch_name: Option<String>,
) -> (r: Result<String, crate::mure_error::Error>)
    ensures
        is_empty ==> (r matches Err(e) && e@ == crate::mure_error::ErrorModel::Message(
            "repository is empty"@,
        )),
        !is_empty && head_shorthand is None ==> (r matches Err(e) && e@
            == crate::mure_error::ErrorModel::Message("head is not a branch"@)),
        !is_empty && head_shorthand is Some && branch_name is None ==> (r matches Err(e) && e@
            == crate::mure_error::ErrorModel::Message("branch name is not found"@)),
        !is_empty && head_shorthand is Some ==> (branch_name matches Some(name) ==> (r matches Ok(
            b,
        ) && b@ == name@)),
{
    if is_empty {
        return Err(crate::mure_error::Error::from_str("repository is empty"));
    }
    if head_shorthand.is_none() {
        return Err(crate::mure_error::Error::from_str("head is not a branch"));
    }
    match branch_name {
        Some(name) => Ok(name),
        None => Err(crate::mure_error::Error::from_str("branch name is not found")),
    }
}

} // verus!
