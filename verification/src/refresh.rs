//! The refresh state machine.
//!
//! Refreshing one repository is a fixed sequence of decisions: skip anything
//! that is not a repository or has no remote, fetch, switch to the default
//! branch only when the working tree is clean, pull fast-forward-only, and
//! prune local branches that are already merged. The engine holds the
//! current position in that sequence; the caller performs one external
//! operation per state and hands the outcome back as an event. Every
//! transition is specified by [`engine_next`], a pure function over the
//! engine's mathematical model.

use vstd::prelude::*;

verus! {

use crate::git::{
    Error as GitError, GitCommandOutput, GitErrorModel, PullFastForwardStatus, git_error_message,
};
use crate::mure_error::{Error, ErrorModel};
use crate::text::{join_lines, join_spec};
use crate::verbosity::Verbosity;
use vstd::string::StringExecFns;

/// Why a repository was skipped rather than refreshed.
#[derive(Debug)]
pub enum Reason {
    NotGitRepository,
    NoRemote,
    EmptyRepository,
}

/// The externally visible result of refreshing one repository: either a
/// skip with its reason, or an update with its transcript.
#[derive(Debug)]
pub enum RefreshStatus {
    DoNothing(Reason),
    Update { switch_to_default: bool, message: String },
}

/// Spec-level shape of a [`RefreshStatus`].
#[verifier::ext_equal]
pub ghost enum StatusModel {
    DoNothing(Reason),
    Update { switch_to_default: bool, message: Seq<char> },
}

impl View for RefreshStatus {
    type V = StatusModel;

    open spec fn view(&self) -> StatusModel {
        match self {
            RefreshStatus::DoNothing(r) => StatusModel::DoNothing(*r),
            RefreshStatus::Update { switch_to_default, message } => StatusModel::Update {
                switch_to_default: *switch_to_default,
                message: message@,
            },
        }
    }
}

/// Where the engine stands in the refresh sequence. Each non-terminal state
/// names the one external operation the caller must perform next.
pub enum RefreshState {
    /// Ask whether the path holds version-control metadata.
    CheckGitDir,
    /// Open the repository and ask whether any remote is configured.
    CheckRemote,
    /// Ask the hosting provider for the upstream's default branch.
    ResolveDefaultBranch,
    /// Fetch from the remotes and prune stale remote-tracking refs.
    Fetch { default_branch: String },
    /// Ask whether the working tree is clean.
    CheckClean { default_branch: String },
    /// Check out the default branch.
    Switch { default_branch: String },
    /// Pull fast-forward-only from origin.
    Pull { default_branch: String },
    /// List the local branches already merged into HEAD.
    ListMerged { default_branch: String },
    /// Delete the first branch in `remaining`.
    DeleteBranches { default_branch: String, remaining: Vec<String> },
    /// The refresh ended with a skip or an update.
    Finished(RefreshStatus),
    /// The refresh ended with a hard error.
    Failed(Error),
}

/// Spec-level shape of a [`RefreshState`].
#[verifier::ext_equal]
pub ghost enum StateModel {
    CheckGitDir,
    CheckRemote,
    ResolveDefaultBranch,
    Fetch { default_branch: Seq<char> },
    CheckClean { default_branch: Seq<char> },
    Switch { default_branch: Seq<char> },
    Pull { default_branch: Seq<char> },
    ListMerged { default_branch: Seq<char> },
    DeleteBranches { default_branch: Seq<char>, remaining: Seq<Seq<char>> },
    Finished(StatusModel),
    Failed(ErrorModel),
}

impl View for RefreshState {
    type V = StateModel;

    open spec fn view(&self) -> StateModel {
        match self {
            RefreshState::CheckGitDir => StateModel::CheckGitDir,
            RefreshState::CheckRemote => StateModel::CheckRemote,
            RefreshState::ResolveDefaultBranch => StateModel::ResolveDefaultBranch,
            RefreshState::Fetch { default_branch } => StateModel::Fetch {
                default_branch: default_branch@,
            },
            RefreshState::CheckClean { default_branch } => StateModel::CheckClean {
                default_branch: default_branch@,
            },
            RefreshState::Switch { default_branch } => StateModel::Switch {
                default_branch: default_branch@,
            },
            RefreshState::Pull { default_branch } => StateModel::Pull {
                default_branch: default_branch@,
            },
            RefreshState::ListMerged { default_branch } => StateModel::ListMerged {
                default_branch: default_branch@,
            },
            RefreshState::DeleteBranches { default_branch, remaining } => {
                StateModel::DeleteBranches {
                    default_branch: default_branch@,
                    remaining: remaining.deep_view(),
                }
            },
            RefreshState::Finished(st) => StateModel::Finished(st@),
            RefreshState::Failed(e) => StateModel::Failed(e@),
        }
    }
}

/// What the caller reports back after performing one external operation.
pub enum RefreshEvent {
    /// Whether the path holds version-control metadata.
    GitDirChecked(bool),
    /// Whether a remote is configured; an error opening or querying the
    /// repository is a hard error.
    RemoteChecked(Result<bool, Error>),
    /// The upstream's default branch, or why it could not be resolved.
    DefaultBranchResolved(Result<String, Error>),
    /// The result of the pruning fetch; any failure is fatal.
    FetchFinished(Result<GitCommandOutput<()>, GitError>),
    /// Whether the working tree is clean.
    CleanChecked(Result<bool, Error>),
    /// The result of checking out the default branch; failure is fatal.
    SwitchFinished(Result<GitCommandOutput<()>, GitError>),
    /// The classified result of the fast-forward-only pull. Only the
    /// aborted outcome of a pull that ran is tolerated; a pull whose
    /// command could not run is an environment failure and is fatal.
    PullFinished(Result<GitCommandOutput<PullFastForwardStatus>, GitError>),
    /// The merged local branches; failure is fatal.
    MergedListed(Result<GitCommandOutput<Vec<String>>, GitError>),
    /// The result of deleting the branch the engine asked for.
    BranchDeleted(Result<GitCommandOutput<()>, GitError>),
}

/// Spec-level shape of a pull result: the classification plus the raw text
/// that a verbose transcript echoes.
#[verifier::ext_equal]
pub ghost struct PullModel {
    pub status: PullFastForwardStatus,
    pub stdout: Seq<char>,
    pub stderr: Seq<char>,
}

/// Spec-level shape of a [`RefreshEvent`].
#[verifier::ext_equal]
pub ghost enum EventModel {
    GitDirChecked(bool),
    RemoteChecked(Result<bool, ErrorModel>),
    DefaultBranchResolved(Result<Seq<char>, ErrorModel>),
    FetchFinished(Result<(), GitErrorModel>),
    CleanChecked(Result<bool, ErrorModel>),
    SwitchFinished(Result<(), GitErrorModel>),
    PullFinished(Result<PullModel, GitErrorModel>),
    MergedListed(Result<Seq<Seq<char>>, GitErrorModel>),
    BranchDeleted(Result<(), GitErrorModel>),
}

impl View for RefreshEvent {
    type V = EventModel;

    open spec fn view(&self) -> EventModel {
        match self {
            RefreshEvent::GitDirChecked(b) => EventModel::GitDirChecked(*b),
            RefreshEvent::RemoteChecked(r) => EventModel::RemoteChecked(
                match r {
                    Ok(b) => Ok(*b),
                    Err(e) => Err(e@),
                },
            ),
            RefreshEvent::DefaultBranchResolved(r) => EventModel::DefaultBranchResolved(
                match r {
                    Ok(s) => Ok(s@),
                    Err(e) => Err(e@),
                },
            ),
            RefreshEvent::FetchFinished(r) => EventModel::FetchFinished(
                match r {
                    Ok(_) => Ok(()),
                    Err(e) => Err(e@),
                },
            ),
            RefreshEvent::CleanChecked(r) => EventModel::CleanChecked(
                match r {
                    Ok(b) => Ok(*b),
                    Err(e) => Err(e@),
                },
            ),
            RefreshEvent::SwitchFinished(r) => EventModel::SwitchFinished(
                match r {
                    Ok(_) => Ok(()),
                    Err(e) => Err(e@),
                },
            ),
            RefreshEvent::PullFinished(r) => EventModel::PullFinished(
                match r {
                    Ok(out) => Ok(
                        PullModel {
                            status: out.interpreted_to,
                            stdout: out.raw.stdout@,
                            stderr: out.raw.stderr@,
                        },
                    ),
                    Err(e) => Err(e@),
                },
            ),
            RefreshEvent::MergedListed(r) => EventModel::MergedListed(
                match r {
                    Ok(out) => Ok(out.interpreted_to.deep_view()),
                    Err(e) => Err(e@),
                },
            ),
            RefreshEvent::BranchDeleted(r) => EventModel::BranchDeleted(
                match r {
                    Ok(_) => Ok(()),
                    Err(e) => Err(e@),
                },
            ),
        }
    }
}

/// The engine: the position in the refresh sequence, the transcript
/// accumulated so far, and the verbosity that gates the transcript.
pub struct RefreshEngine {
    pub verbosity: Verbosity,
    pub state: RefreshState,
    pub messages: Vec<String>,
}

/// Spec-level shape of a [`RefreshEngine`].
#[verifier::ext_equal]
pub ghost struct EngineModel {
    pub verbosity: Verbosity,
    pub state: StateModel,
    pub messages: Seq<Seq<char>>,
}

impl View for RefreshEngine {
    type V = EngineModel;

    open spec fn view(&self) -> EngineModel {
        EngineModel {
            verbosity: self.verbosity,
            state: self.state@,
            messages: self.messages.deep_view(),
        }
    }
}

/// The engine as it starts on a repository: nothing checked, nothing said.
pub open spec fn engine_init(verbosity: Verbosity) -> EngineModel {
    EngineModel {
        verbosity,
        state: StateModel::CheckGitDir,
        messages: Seq::empty(),
    }
}

/// The transcript line recorded after switching to the default branch.
pub open spec fn switched_line(branch: Seq<char>) -> Seq<char> {
    "Switched to "@ + branch
}

/// The transcript line recorded after deleting a merged branch.
pub open spec fn deleted_line(branch: Seq<char>) -> Seq<char> {
    "Deleted branch "@ + branch
}

/// What a pull outcome adds to the transcript: nothing when quiet or
/// aborted, a status line normally, and the raw text too when verbose.
pub open spec fn pull_lines(p: PullModel, verbosity: Verbosity) -> Seq<Seq<char>> {
    match p.status {
        PullFastForwardStatus::AlreadyUpToDate => match verbosity {
            Verbosity::Quiet => Seq::empty(),
            Verbosity::Normal => seq!["Already up to date"@],
            Verbosity::Verbose => seq!["Already up to date"@, p.stderr, p.stdout],
        },
        PullFastForwardStatus::FastForwarded => match verbosity {
            Verbosity::Quiet => Seq::empty(),
            Verbosity::Normal => seq!["Fast-forwarded"@],
            Verbosity::Verbose => seq!["Fast-forwarded"@, p.stderr, p.stdout],
        },
        PullFastForwardStatus::Abort => Seq::empty(),
    }
}

/// The branches scheduled for deletion: every listed branch except the
/// default branch, in listing order.
pub open spec fn branches_to_delete_spec(
    branches: Seq<Seq<char>>,
    default_branch: Seq<char>,
) -> Seq<Seq<char>>
    decreases branches.len(),
{
    if branches.len() == 0 {
        Seq::empty()
    } else {
        branches_to_delete_spec(branches.drop_last(), default_branch) + (if branches.last()
            == default_branch {
            Seq::<Seq<char>>::empty()
        } else {
            seq![branches.last()]
        })
    }
}

/// A fatal git failure, recast as this library's error.
pub open spec fn mure_of_git(e: GitErrorModel) -> ErrorModel {
    ErrorModel::GitCommandError(git_error_message(e))
}

/// The terminal update outcome: the transcript joined into one message.
/// Switching is reported inline in the transcript, never as the flag.
pub open spec fn finished(m: EngineModel) -> EngineModel {
    EngineModel {
        state: StateModel::Finished(
            StatusModel::Update {
                switch_to_default: false,
                message: join_spec(m.messages, '\n'),
            },
        ),
        ..m
    }
}

/// The complete transition function of the refresh engine. A terminal
/// engine, or one handed an event that does not answer its current state,
/// is left unchanged.
pub open spec fn engine_next(m: EngineModel, e: EventModel) -> EngineModel {
    match (m.state, e) {
        (StateModel::CheckGitDir, EventModel::GitDirChecked(present)) => {
            if present {
                EngineModel { state: StateModel::CheckRemote, ..m }
            } else {
                EngineModel {
                    state: StateModel::Finished(
                        StatusModel::DoNothing(Reason::NotGitRepository),
                    ),
                    ..m
                }
            }
        },
        (StateModel::CheckRemote, EventModel::RemoteChecked(r)) => match r {
            Ok(true) => EngineModel { state: StateModel::ResolveDefaultBranch, ..m },
            Ok(false) => EngineModel {
                state: StateModel::Finished(StatusModel::DoNothing(Reason::NoRemote)),
                ..m
            },
            Err(err) => EngineModel { state: StateModel::Failed(err), ..m },
        },
        (StateModel::ResolveDefaultBranch, EventModel::DefaultBranchResolved(r)) => match r {
            Ok(db) => EngineModel { state: StateModel::Fetch { default_branch: db }, ..m },
            Err(err) => EngineModel { state: StateModel::Failed(err), ..m },
        },
        (StateModel::Fetch { default_branch }, EventModel::FetchFinished(r)) => match r {
            Ok(_) => EngineModel { state: StateModel::CheckClean { default_branch }, ..m },
            Err(ge) => EngineModel { state: StateModel::Failed(mure_of_git(ge)), ..m },
        },
        (StateModel::CheckClean { default_branch }, EventModel::CleanChecked(r)) => match r {
            Ok(true) => EngineModel { state: StateModel::Switch { default_branch }, ..m },
            Ok(false) => EngineModel { state: StateModel::Pull { default_branch }, ..m },
            Err(err) => EngineModel { state: StateModel::Failed(err), ..m },
        },
        (StateModel::Switch { default_branch }, EventModel::SwitchFinished(r)) => match r {
            Ok(_) => EngineModel {
                state: StateModel::Pull { default_branch },
                messages: m.messages.push(switched_line(default_branch)),
                ..m
            },
            Err(ge) => EngineModel { state: StateModel::Failed(mure_of_git(ge)), ..m },
        },
        (StateModel::Pull { default_branch }, EventModel::PullFinished(r)) => match r {
            Ok(p) => EngineModel {
                state: StateModel::ListMerged { default_branch },
                messages: m.messages + pull_lines(p, m.verbosity),
                ..m
            },
            Err(ge) => EngineModel { state: StateModel::Failed(mure_of_git(ge)), ..m },
        },
        (StateModel::ListMerged { default_branch }, EventModel::MergedListed(r)) => match r {
            Ok(branches) => {
                let remaining = branches_to_delete_spec(branches, default_branch);
                if remaining.len() == 0 {
                    finished(m)
                } else {
                    EngineModel {
                        state: StateModel::DeleteBranches { default_branch, remaining },
                        ..m
                    }
                }
            },
            Err(ge) => EngineModel { state: StateModel::Failed(mure_of_git(ge)), ..m },
        },
        (StateModel::DeleteBranches { default_branch, remaining }, EventModel::BranchDeleted(r)) =>
            match r {
            Ok(_) => {
                if remaining.len() == 0 {
                    m
                } else {
                    let messages = m.messages.push(deleted_line(remaining[0]));
                    let rest = remaining.skip(1);
                    if rest.len() == 0 {
                        finished(EngineModel { messages, ..m })
                    } else {
                        EngineModel {
                            state: StateModel::DeleteBranches {
                                default_branch,
                                remaining: rest,
                            },
                            messages,
                            ..m
                        }
                    }
                }
            },
            Err(ge) => EngineModel { state: StateModel::Failed(mure_of_git(ge)), ..m },
        },
        _ => m,
    }
}

/// The branches scheduled for deletion, computed executably.
pub fn branches_to_delete(branches: &Vec<String>, default_branch: &String) -> (r: Vec<String>)
    ensures
        r.deep_view() == branches_to_delete_spec(branches.deep_view(), default_branch@),
{
    let ghost dv = branches.deep_view();
    let mut r: Vec<String> = Vec::new();
    let mut i: usize = 0;
    proof {
        assert(dv.take(0) =~= Seq::<Seq<char>>::empty());
        assert(r.deep_view() =~= Seq::<Seq<char>>::empty());
    }
    while i < branches.len()
        invariant
            i <= branches@.len(),
            dv == branches.deep_view(),
            r.deep_view() == branches_to_delete_spec(dv.take(i as int), default_branch@),
        decreases branches@.len() - i,
    {
        proof {
            assert(dv.take(i + 1).drop_last() =~= dv.take(i as int));
            assert(dv.take(i + 1).last() == dv[i as int]);
        }
        let ghost old_dv = r.deep_view();
        if branches[i] == *default_branch {
            proof {
                assert(r.deep_view() + Seq::<Seq<char>>::empty() =~= r.deep_view());
            }
        } else {
            let b = branches[i].clone();
            r.push(b);
            proof {
                assert(r.deep_view() =~= old_dv.push(dv[i as int]));
                assert(old_dv.push(dv[i as int]) =~= old_dv + seq![dv[i as int]]);
            }
        }
        i += 1;
    }
    proof {
        assert(dv.take(branches@.len() as int) =~= dv);
    }
    r
}

impl RefreshEngine {
    /// A fresh engine for one repository.
    pub fn new(verbosity: Verbosity) -> (e: RefreshEngine)
        ensures
            e@ == engine_init(verbosity),
    {
        let e = RefreshEngine { verbosity, state: RefreshState::CheckGitDir, messages: Vec::new() };
        proof {
            assert(e@ =~= engine_init(verbosity));
        }
        e
    }

    /// Consumes one event and moves to the next state, exactly as
    /// [`engine_next`] prescribes.
    pub fn step(self, event: RefreshEvent) -> (next: RefreshEngine)
        ensures
            next@ == engine_next(self@, event@),
    {
        let ghost pre = self@;
        let ghost ev = event@;
        let RefreshEngine { verbosity, state, mut messages } = self;
        let next = match (state, event) {
            (RefreshState::CheckGitDir, RefreshEvent::GitDirChecked(present)) => {
                let state = if present {
                    RefreshState::CheckRemote
                } else {
                    RefreshState::Finished(RefreshStatus::DoNothing(Reason::NotGitRepository))
                };
                RefreshEngine { verbosity, state, messages }
            },
            (RefreshState::CheckRemote, RefreshEvent::RemoteChecked(r)) => {
                let state = match r {
                    Ok(true) => RefreshState::ResolveDefaultBranch,
                    Ok(false) => RefreshState::Finished(RefreshStatus::DoNothing(Reason::NoRemote)),
                    Err(err) => RefreshState::Failed(err),
                };
                RefreshEngine { verbosity, state, messages }
            },
            (RefreshState::ResolveDefaultBranch, RefreshEvent::DefaultBranchResolved(r)) => {
                let state = match r {
                    Ok(db) => RefreshState::Fetch { default_branch: db },
                    Err(err) => RefreshState::Failed(err),
                };
                RefreshEngine { verbosity, state, messages }
            },
            (RefreshState::Fetch { default_branch }, RefreshEvent::FetchFinished(r)) => {
                let state = match r {
                    Ok(_) => RefreshState::CheckClean { default_branch },
                    Err(ge) => RefreshState::Failed(Error::GitCommandError(ge.message())),
                };
                RefreshEngine { verbosity, state, messages }
            },
            (RefreshState::CheckClean { default_branch }, RefreshEvent::CleanChecked(r)) => {
                let state = match r {
                    Ok(true) => RefreshState::Switch { default_branch },
                    Ok(false) => RefreshState::Pull { default_branch },
                    Err(err) => RefreshState::Failed(err),
                };
                RefreshEngine { verbosity, state, messages }
            },
            (RefreshState::Switch { default_branch }, RefreshEvent::SwitchFinished(r)) => {
                match r {
                    Ok(_) => {
                        let ghost old_dv = messages.deep_view();
                        let mut line = "Switched to ".to_owned();
                        line.append(default_branch.as_str());
                        messages.push(line);
                        proof {
                            assert(messages.deep_view() =~= old_dv.push(
                                switched_line(default_branch@),
                            ));
                        }
                        RefreshEngine {
                            verbosity,
                            state: RefreshState::Pull { default_branch },
                            messages,
                        }
                    },
                    Err(ge) => RefreshEngine {
                        verbosity,
                        state: RefreshState::Failed(Error::GitCommandError(ge.message())),
                        messages,
                    },
                }
            },
            (RefreshState::Pull { default_branch }, RefreshEvent::PullFinished(r)) => {
                match r {
                    Ok(out) => {
                        let ghost old_dv = messages.deep_view();
                        let ghost p = PullModel {
                            status: out.interpreted_to,
                            stdout: out.raw.stdout@,
                            stderr: out.raw.stderr@,
                        };
                        let GitCommandOutput { raw, interpreted_to: status } = out;
                        match status {
                            PullFastForwardStatus::AlreadyUpToDate => match verbosity {
                                Verbosity::Quiet => {
                                    proof {
                                        assert(messages.deep_view() =~= old_dv + pull_lines(
                                            p,
                                            verbosity,
                                        ));
                                    }
                                },
                                Verbosity::Normal => {
                                    messages.push("Already up to date".to_owned());
                                    proof {
                                        assert(messages.deep_view() =~= old_dv + pull_lines(
                                            p,
                                            verbosity,
                                        ));
                                    }
                                },
                                Verbosity::Verbose => {
                                    messages.push("Already up to date".to_owned());
                                    messages.push(raw.stderr);
                                    messages.push(raw.stdout);
                                    proof {
                                        assert(messages.deep_view() =~= old_dv + pull_lines(
                                            p,
                                            verbosity,
                                        ));
                                    }
                                },
                            },
                            PullFastForwardStatus::FastForwarded => match verbosity {
                                Verbosity::Quiet => {
                                    proof {
                                        assert(messages.deep_view() =~= old_dv + pull_lines(
                                            p,
                                            verbosity,
                                        ));
                                    }
                                },
                                Verbosity::Normal => {
                                    messages.push("Fast-forwarded".to_owned());
                                    proof {
                                        assert(messages.deep_view() =~= old_dv + pull_lines(
                                            p,
                                            verbosity,
                                        ));
                                    }
                                },
                                Verbosity::Verbose => {
                                    messages.push("Fast-forwarded".to_owned());
                                    messages.push(raw.stderr);
                                    messages.push(raw.stdout);
                                    proof {
                                        assert(messages.deep_view() =~= old_dv + pull_lines(
                                            p,
                                            verbosity,
                                        ));
                                    }
                                },
                            },
                            PullFastForwardStatus::Abort => {
                                proof {
                                    assert(messages.deep_view() =~= old_dv + pull_lines(
                                        p,
                                        verbosity,
                                    ));
                                }
                            },
                        }
                        RefreshEngine {
                            verbosity,
                            state: RefreshState::ListMerged { default_branch },
                            messages,
                        }
                    },
                    Err(ge) => RefreshEngine {
                        verbosity,
                        state: RefreshState::Failed(Error::GitCommandError(ge.message())),
                        messages,
                    },
                }
            },
            (RefreshState::ListMerged { default_branch }, RefreshEvent::MergedListed(r)) => {
                match r {
                    Ok(out) => {
                        let branches = out.interpreted_to;
                        let remaining = branches_to_delete(&branches, &default_branch);
                        if remaining.len() == 0 {
                            let message = join_lines(&messages);
                            RefreshEngine {
                                verbosity,
                                state: RefreshState::Finished(
                                    RefreshStatus::Update { switch_to_default: false, message },
                                ),
                                messages,
                            }
                        } else {
                            RefreshEngine {
                                verbosity,
                                state: RefreshState::DeleteBranches {
                                    default_branch,
                                    remaining,
                                },
                                messages,
                            }
                        }
                    },
                    Err(ge) => RefreshEngine {
                        verbosity,
                        state: RefreshState::Failed(Error::GitCommandError(ge.message())),
                        messages,
                    },
                }
            },
            (
                RefreshState::DeleteBranches { default_branch, remaining },
                RefreshEvent::BranchDeleted(r),
            ) => {
                match r {
                    Ok(_) => {
                        let mut remaining = remaining;
                        if remaining.len() == 0 {
                            RefreshEngine {
                                verbosity,
                                state: RefreshState::DeleteBranches {
                                    default_branch,
                                    remaining,
                                },
                                messages,
                            }
                        } else {
                            let ghost old_rem = remaining.deep_view();
                            let ghost old_dv = messages.deep_view();
                            let b = remaining.remove(0);
                            proof {
                                assert(remaining.deep_view() =~= old_rem.skip(1));
                            }
                            let mut line = "Deleted branch ".to_owned();
                            line.append(b.as_str());
                            messages.push(line);
                            proof {
                                assert(messages.deep_view() =~= old_dv.push(
                                    deleted_line(old_rem[0]),
                                ));
                            }
                            if remaining.len() == 0 {
                                let message = join_lines(&messages);
                                RefreshEngine {
                                    verbosity,
                                    state: RefreshState::Finished(
                                        RefreshStatus::Update {
                                            switch_to_default: false,
                                            message,
                                        },
                                    ),
                                    messages,
                                }
                            } else {
                                RefreshEngine {
                                    verbosity,
                                    state: RefreshState::DeleteBranches {
                                        default_branch,
                                        remaining,
                                    },
                                    messages,
                                }
                            }
                        }
                    },
                    Err(ge) => RefreshEngine {
                        verbosity,
                        state: RefreshState::Failed(Error::GitCommandError(ge.message())),
                        messages,
                    },
                }
            },
            (st, _) => RefreshEngine { verbosity, state: st, messages },
        };
        proof {
            assert(next@ =~= engine_next(pre, ev));
        }
        next
    }
}

} // verus!
