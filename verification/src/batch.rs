//! The batch orchestrator's reporting core. Discovering repositories and
//! driving each refresh is done outside the library; what gets reported
//! for each outcome, and that one repository's failure never silences the
//! others, is decided and proved here.

use vstd::prelude::*;

verus! {

use crate::mure_error::{Error, ErrorModel};
use crate::refresh::{Reason, RefreshStatus, StatusModel, switched_line};
use vstd::string::StringExecFns;

/// One repository's refresh outcome, ready to report.
pub struct RepoOutcome {
    pub name: String,
    pub result: Result<RefreshStatus, Error>,
}

/// Spec-level shape of an outcome.
#[verifier::ext_equal]
pub ghost struct OutcomeModel {
    pub name: Seq<char>,
    pub result: Result<StatusModel, ErrorModel>,
}

impl View for RepoOutcome {
    type V = OutcomeModel;

    open spec fn view(&self) -> OutcomeModel {
        OutcomeModel {
            name: self.name@,
            result: match &self.result {
                Ok(st) => Ok(st@),
                Err(e) => Err(e@),
            },
        }
    }
}

/// The progress line printed before a repository is refreshed.
pub open spec fn progress_line_spec(name: Seq<char>) -> Seq<char> {
    "> Refreshing "@ + name
}

pub fn progress_line(name: &String) -> (r: String)
    ensures
        r@ == progress_line_spec(name@),
{
    let mut r = "> Refreshing ".to_owned();
    r.append(name.as_str());
    r
}

/// The lines reported for one outcome: every skip and every error has its
/// own stable message, and an update shows its transcript.
pub open spec fn report_lines_spec(o: OutcomeModel) -> Seq<Seq<char>> {
    match o.result {
        Ok(StatusModel::DoNothing(Reason::NotGitRepository)) => seq![
            o.name + " is not a git repository"@,
        ],
        Ok(StatusModel::DoNothing(Reason::NoRemote)) => seq![o.name + " has no remote"@],
        Ok(StatusModel::DoNothing(Reason::EmptyRepository)) => seq![
            o.name + " is an empty repository"@,
        ],
        Ok(StatusModel::Update { switch_to_default, message }) => (if switch_to_default {
            seq![switched_line(o.name)]
        } else {
            Seq::<Seq<char>>::empty()
        }) + seq![message],
        Err(e) => seq![e.message()],
    }
}

/// Reports one outcome. Every outcome, error included, turns into lines:
/// nothing stops the batch.
pub fn report_lines(outcome: &RepoOutcome) -> (r: Vec<String>)
    ensures
        r.deep_view() == report_lines_spec(outcome@),
{
    let mut r: Vec<String> = Vec::new();
    match &outcome.result {
        Ok(status) => match status {
            RefreshStatus::DoNothing(reason) => {
                let mut line = outcome.name.clone();
                match reason {
                    Reason::NotGitRepository => line.append(" is not a git repository"),
                    Reason::NoRemote => line.append(" has no remote"),
                    Reason::EmptyRepository => line.append(" is an empty repository"),
                }
                r.push(line);
            },
            RefreshStatus::Update { switch_to_default, message } => {
                if *switch_to_default {
                    let mut line = "Switched to ".to_owned();
                    line.append(outcome.name.as_str());
                    r.push(line);
                }
                r.push(message.clone());
            },
        },
        Err(e) => {
            r.push(e.message());
        },
    }
    proof {
        assert(r.deep_view() =~= report_lines_spec(outcome@));
    }
    r
}

/// The line reported when discovery finds no repository at all.
pub fn empty_discovery_line() -> (r: String)
    ensures
        r@ == "No repositories found"@,
{
    "No repositories found".to_owned()
}

/// Everything the batch reports, in order: for each repository its
/// progress line followed by the lines of its outcome. Defined for every
/// sequence of outcomes, an error included: reporting never stops early
/// and never re-raises.
pub open spec fn batch_report_spec(outcomes: Seq<OutcomeModel>) -> Seq<Seq<char>>
    decreases outcomes.len(),
{
    if outcomes.len() == 0 {
        Seq::empty()
    } else {
        batch_report_spec(outcomes.drop_last()) + seq![progress_line_spec(outcomes.last().name)]
            + report_lines_spec(outcomes.last())
    }
}

/// The batch attempts every repository: whatever the outcomes around it
/// were, each repository's progress line stands in the full report, and
/// its own outcome contributes at least one line.
pub proof fn lemma_batch_report_attempts_all(outcomes: Seq<OutcomeModel>, i: int)
    requires
        0 <= i < outcomes.len(),
    ensures
        batch_report_spec(outcomes).contains(progress_line_spec(outcomes[i].name)),
        report_lines_spec(outcomes[i]).len() >= 1,
    decreases outcomes.len(),
{
    let whole = batch_report_spec(outcomes);
    let prefix = batch_report_spec(outcomes.drop_last());
    if i == outcomes.len() - 1 {
        assert(whole[prefix.len() as int] == progress_line_spec(outcomes[i].name));
    } else {
        lemma_batch_report_attempts_all(outcomes.drop_last(), i);
        assert(outcomes.drop_last()[i] == outcomes[i]);
        let j = choose|j: int|
            0 <= j < prefix.len() && prefix[j] == progress_line_spec(outcomes[i].name);
        assert(whole[j] == progress_line_spec(outcomes[i].name));
    }
}

/// How many outcomes were skips.
pub open spec fn count_skips(results: Seq<Result<StatusModel, ErrorModel>>) -> int
    decreases results.len(),
{
    if results.len() == 0 {
        0
    } else {
        count_skips(results.drop_last()) + (if results.last() matches Ok(
            StatusModel::DoNothing(_),
        ) {
            1int
        } else {
            0int
        })
    }
}

/// How many outcomes were updates.
pub open spec fn count_updates(results: Seq<Result<StatusModel, ErrorModel>>) -> int
    decreases results.len(),
{
    if results.len() == 0 {
        0
    } else {
        count_updates(results.drop_last()) + (if results.last() matches Ok(
            StatusModel::Update { .. },
        ) {
            1int
        } else {
            0int
        })
    }
}

/// How many outcomes were errors.
pub open spec fn count_errors(results: Seq<Result<StatusModel, ErrorModel>>) -> int
    decreases results.len(),
{
    if results.len() == 0 {
        0
    } else {
        count_errors(results.drop_last()) + (if results.last() is Err {
            1int
        } else {
            0int
        })
    }
}

/// When every outcome is an update, the counts say so.
proof fn lemma_all_updates_counts(results: Seq<Result<StatusModel, ErrorModel>>)
    requires
        forall|i: int|
            0 <= i < results.len() ==> (#[trigger] results[i]) matches Ok(
                StatusModel::Update { .. },
            ),
    ensures
        count_skips(results) == 0,
        count_updates(results) == results.len(),
        count_errors(results) == 0,
    decreases results.len(),
{
    if results.len() > 0 {
        lemma_all_updates_counts(results.drop_last());
    }
}

/// A batch where exactly one repository is skipped for want of a remote
/// and every other repository updates reports one skip and N - 1 updates,
/// and no error reaches the caller.
pub proof fn lemma_one_skip_rest_updates(
    results: Seq<Result<StatusModel, ErrorModel>>,
    k: int,
)
    requires
        0 <= k < results.len(),
        results[k] == Ok::<StatusModel, ErrorModel>(
            StatusModel::DoNothing(Reason::NoRemote),
        ),
        forall|i: int|
            0 <= i < results.len() && i != k ==> (#[trigger] results[i]) matches Ok(
                StatusModel::Update { .. },
            ),
    ensures
        count_skips(results) == 1,
        count_updates(results) == results.len() - 1,
        count_errors(results) == 0,
    decreases results.len(),
{
    if k == results.len() - 1 {
        lemma_all_updates_counts(results.drop_last());
    } else {
        lemma_one_skip_rest_updates(results.drop_last(), k);
    }
}

} // verus!
