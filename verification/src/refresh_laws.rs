//! What the refresh engine guarantees, stated over whole runs.
//!
//! [`engine_run`] folds the transition function over a sequence of events;
//! the proof functions here are the engine's laws: skips happen untouched,
//! a dirty tree is never switched away from, an aborted fast-forward is
//! tolerated, and pruning deletes exactly the merged branches that are not
//! the default branch.

use vstd::prelude::*;

verus! {

use crate::git::GitErrorModel;
use crate::mure_error::ErrorModel;
use crate::refresh::{
    EngineModel, EventModel, PullModel, Reason, StateModel, StatusModel, branches_to_delete_spec,
    deleted_line, engine_init, engine_next, pull_lines,
};
use crate::git::PullFastForwardStatus;
use crate::text::join_spec;
use crate::verbosity::Verbosity;

/// The engine after consuming a whole sequence of events, one step each.
pub open spec fn engine_run(m: EngineModel, events: Seq<EventModel>) -> EngineModel
    decreases events.len(),
{
    if events.len() == 0 {
        m
    } else {
        engine_run(engine_next(m, events[0]), events.skip(1))
    }
}

/// A finished or failed engine ignores every further event: once a
/// repository's refresh has ended, nothing more is done to it.
pub proof fn lemma_terminal_absorbs(m: EngineModel, events: Seq<EventModel>)
    requires
        m.state is Finished || m.state is Failed,
    ensures
        engine_run(m, events) == m,
    decreases events.len(),
{
    if events.len() > 0 {
        assert(engine_next(m, events[0]) == m);
        lemma_terminal_absorbs(m, events.skip(1));
    }
}

/// A path without version-control metadata is skipped and left untouched:
/// the engine finishes at once with the skip reason, its transcript stays
/// empty, and whatever events follow change nothing.
pub proof fn lemma_not_a_repository_is_skipped(verbosity: Verbosity, events: Seq<EventModel>)
    ensures
        ({
            let m = engine_run(
                engine_next(engine_init(verbosity), EventModel::GitDirChecked(false)),
                events,
            );
            &&& m.state == StateModel::Finished(StatusModel::DoNothing(Reason::NotGitRepository))
            &&& m.messages == Seq::<Seq<char>>::empty()
        }),
{
    let m1 = engine_next(engine_init(verbosity), EventModel::GitDirChecked(false));
    lemma_terminal_absorbs(m1, events);
}

/// A repository with no remote configured is skipped the same way: the
/// refresh ends right after the remote check, with an empty transcript.
pub proof fn lemma_no_remote_is_skipped(verbosity: Verbosity, events: Seq<EventModel>)
    ensures
        ({
            let m0 = engine_next(engine_init(verbosity), EventModel::GitDirChecked(true));
            let m1 = engine_next(
                m0,
                EventModel::RemoteChecked(Ok::<bool, ErrorModel>(false)),
            );
            let m = engine_run(m1, events);
            &&& m.state == StateModel::Finished(StatusModel::DoNothing(Reason::NoRemote))
            &&& m.messages == Seq::<Seq<char>>::empty()
        }),
{
    let m0 = engine_next(engine_init(verbosity), EventModel::GitDirChecked(true));
    let m1 = engine_next(m0, EventModel::RemoteChecked(Ok::<bool, ErrorModel>(false)));
    lemma_terminal_absorbs(m1, events);
}

/// The only way into the switch state is the cleanliness check reporting a
/// clean tree: uncommitted work is never interrupted.
pub proof fn lemma_switch_needs_clean_tree(m: EngineModel, e: EventModel)
    ensures
        engine_next(m, e).state is Switch ==> (m.state is Switch || (m.state is CheckClean && e
            == EventModel::CleanChecked(Ok::<bool, ErrorModel>(true)))),
{
}

/// Over a whole run: if no event ever reports the tree clean, the engine
/// never reaches the switch state, however far the refresh proceeds.
pub proof fn lemma_dirty_tree_never_switches(m: EngineModel, events: Seq<EventModel>)
    requires
        m.state !is Switch,
        forall|k: int|
            0 <= k < events.len() ==> events[k] != EventModel::CleanChecked(
                Ok::<bool, ErrorModel>(true),
            ),
    ensures
        engine_run(m, events).state !is Switch,
    decreases events.len(),
{
    if events.len() > 0 {
        lemma_switch_needs_clean_tree(m, events[0]);
        lemma_dirty_tree_never_switches(engine_next(m, events[0]), events.skip(1));
    }
}

/// The branches scheduled for deletion are exactly the listed branches
/// that are not the default branch.
pub proof fn lemma_branches_to_delete_contains(
    branches: Seq<Seq<char>>,
    db: Seq<char>,
    b: Seq<char>,
)
    ensures
        branches_to_delete_spec(branches, db).contains(b) <==> (branches.contains(b) && b != db),
    decreases branches.len(),
{
    if branches.len() > 0 {
        let prefix = branches.drop_last();
        lemma_branches_to_delete_contains(prefix, db, b);
        let sub = branches_to_delete_spec(prefix, db);
        let whole = branches_to_delete_spec(branches, db);
        assert(branches.contains(b) <==> (prefix.contains(b) || branches.last() == b)) by {
            if branches.contains(b) {
                let i = choose|i: int| 0 <= i < branches.len() && branches[i] == b;
                if i < branches.len() - 1 {
                    assert(prefix[i] == b);
                }
            }
            if prefix.contains(b) {
                let i = choose|i: int| 0 <= i < prefix.len() && prefix[i] == b;
                assert(branches[i] == b);
            }
        }
        if branches.last() == db {
            assert(whole =~= sub);
        } else {
            assert(whole =~= sub + seq![branches.last()]);
            assert(whole.contains(b) <==> (sub.contains(b) || branches.last() == b)) by {
                if whole.contains(b) {
                    let i = choose|i: int| 0 <= i < whole.len() && whole[i] == b;
                    if i < sub.len() {
                        assert(sub[i] == b);
                    } else {
                        assert(whole[i] == branches.last());
                    }
                }
                if sub.contains(b) {
                    let i = choose|i: int| 0 <= i < sub.len() && sub[i] == b;
                    assert(whole[i] == b);
                }
                assert(whole[sub.len() as int] == branches.last());
            }
        }
    }
}

/// The default branch is never scheduled for deletion.
pub proof fn lemma_default_branch_not_scheduled(branches: Seq<Seq<char>>, db: Seq<char>)
    ensures
        !branches_to_delete_spec(branches, db).contains(db),
{
    lemma_branches_to_delete_contains(branches, db, db);
}

/// The pruning invariant: whenever the engine holds branches still to be
/// deleted, the default branch is not among them.
pub open spec fn default_branch_not_pending(m: EngineModel) -> bool {
    m.state matches StateModel::DeleteBranches { default_branch, remaining }
        ==> !remaining.contains(default_branch)
}

/// One step preserves the pruning invariant.
pub proof fn lemma_default_branch_not_pending_step(m: EngineModel, e: EventModel)
    requires
        default_branch_not_pending(m),
    ensures
        default_branch_not_pending(engine_next(m, e)),
{
    let n = engine_next(m, e);
    match (m.state, e) {
        (StateModel::ListMerged { default_branch }, EventModel::MergedListed(r)) => {
            match r {
                Ok(branches) => lemma_default_branch_not_scheduled(branches, default_branch),
                Err(_) => {},
            }
        },
        (StateModel::DeleteBranches { default_branch, remaining }, EventModel::BranchDeleted(
            r,
        )) => {
            if r is Ok && remaining.len() > 0 {
                let rest = remaining.skip(1);
                if rest.contains(default_branch) {
                    let i = choose|i: int| 0 <= i < rest.len() && rest[i] == default_branch;
                    assert(remaining[i + 1] == default_branch);
                }
            }
        },
        _ => {},
    }
}

/// Over a whole run from a fresh engine: the default branch is never
/// pending deletion, so no deletion of it is ever requested.
pub proof fn lemma_default_branch_never_deleted(m: EngineModel, events: Seq<EventModel>)
    requires
        default_branch_not_pending(m),
    ensures
        default_branch_not_pending(engine_run(m, events)),
    decreases events.len(),
{
    if events.len() > 0 {
        lemma_default_branch_not_pending_step(m, events[0]);
        lemma_default_branch_never_deleted(engine_next(m, events[0]), events.skip(1));
    }
}

/// From a deletion state, one successful deletion per scheduled branch
/// appends one deletion line per branch, in order, and finishes the
/// refresh with the joined transcript.
pub proof fn lemma_deletions_complete(m: EngineModel, events: Seq<EventModel>)
    requires
        m.state is DeleteBranches,
        m.state->DeleteBranches_remaining.len() > 0,
        events.len() == m.state->DeleteBranches_remaining.len(),
        forall|k: int|
            0 <= k < events.len() ==> events[k] == EventModel::BranchDeleted(
                Ok::<(), GitErrorModel>(()),
            ),
    ensures
        ({
            let remaining = m.state->DeleteBranches_remaining;
            let msgs = m.messages + remaining.map_values(|b: Seq<char>| deleted_line(b));
            engine_run(m, events) == EngineModel {
                verbosity: m.verbosity,
                state: StateModel::Finished(
                    StatusModel::Update {
                        switch_to_default: false,
                        message: join_spec(msgs, '\n'),
                    },
                ),
                messages: msgs,
            }
        }),
    decreases events.len(),
{
    let remaining = m.state->DeleteBranches_remaining;
    let msgs = m.messages + remaining.map_values(|b: Seq<char>| deleted_line(b));
    let n = engine_next(m, events[0]);
    if events.len() == 1 {
        assert(remaining.skip(1).len() == 0);
        assert(n.messages =~= m.messages.push(deleted_line(remaining[0])));
        assert(msgs =~= m.messages.push(deleted_line(remaining[0])));
        assert(engine_run(n, events.skip(1)) == n);
        assert(engine_run(m, events) =~= EngineModel {
            verbosity: m.verbosity,
            state: StateModel::Finished(
                StatusModel::Update {
                    switch_to_default: false,
                    message: join_spec(msgs, '\n'),
                },
            ),
            messages: msgs,
        });
    } else {
        let rest = remaining.skip(1);
        assert(rest.len() > 0);
        assert(n.state == StateModel::DeleteBranches {
            default_branch: m.state->DeleteBranches_default_branch,
            remaining: rest,
        });
        assert(n.messages == m.messages.push(deleted_line(remaining[0])));
        assert(forall|k: int|
            0 <= k < events.skip(1).len() ==> events.skip(1)[k] == EventModel::BranchDeleted(
                Ok::<(), GitErrorModel>(()),
            ));
        lemma_deletions_complete(n, events.skip(1));
        assert(n.messages + rest.map_values(|b: Seq<char>| deleted_line(b)) =~= msgs);
        assert(engine_run(m, events) == engine_run(n, events.skip(1)));
    }
}

/// After the merged branches are listed and each scheduled deletion
/// succeeds, the refresh finishes; every listed branch other than the
/// default branch has a deletion line in the transcript, and nothing was
/// scheduled for the default branch itself.
pub proof fn lemma_merged_branches_pruned(
    m: EngineModel,
    branches: Seq<Seq<char>>,
    events: Seq<EventModel>,
)
    requires
        m.state is ListMerged,
        events.len() == branches_to_delete_spec(
            branches,
            m.state->ListMerged_default_branch,
        ).len(),
        forall|k: int|
            0 <= k < events.len() ==> events[k] == EventModel::BranchDeleted(
                Ok::<(), GitErrorModel>(()),
            ),
    ensures
        ({
            let db = m.state->ListMerged_default_branch;
            let scheduled = branches_to_delete_spec(branches, db);
            let f = engine_run(
                engine_next(m, EventModel::MergedListed(Ok::<_, GitErrorModel>(branches))),
                events,
            );
            &&& f.state is Finished
            &&& f.messages == m.messages + scheduled.map_values(|b: Seq<char>| deleted_line(b))
            &&& !scheduled.contains(db)
            &&& forall|b: Seq<char>|
                branches.contains(b) && b != db ==> #[trigger] f.messages.contains(
                    deleted_line(b),
                )
        }),
{
    let db = m.state->ListMerged_default_branch;
    let scheduled = branches_to_delete_spec(branches, db);
    let n = engine_next(m, EventModel::MergedListed(Ok::<_, GitErrorModel>(branches)));
    lemma_default_branch_not_scheduled(branches, db);
    if scheduled.len() == 0 {
        assert(events.len() == 0);
        assert(engine_run(n, events) == n);
        assert(m.messages + scheduled.map_values(|b: Seq<char>| deleted_line(b)) =~= m.messages);
        assert forall|b: Seq<char>| branches.contains(b) && b != db implies #[trigger] engine_run(
            n,
            events,
        ).messages.contains(deleted_line(b)) by {
            lemma_branches_to_delete_contains(branches, db, b);
        }
    } else {
        assert(n.state == StateModel::DeleteBranches { default_branch: db, remaining: scheduled });
        assert(n.messages == m.messages);
        lemma_deletions_complete(n, events);
        let f = engine_run(n, events);
        assert(f.messages == m.messages + scheduled.map_values(|b: Seq<char>| deleted_line(b)));
        assert forall|b: Seq<char>| branches.contains(b) && b != db implies #[trigger] f.messages.contains(
            deleted_line(b),
        ) by {
            lemma_branches_to_delete_contains(branches, db, b);
            let i = choose|i: int| 0 <= i < scheduled.len() && scheduled[i] == b;
            assert(f.messages[m.messages.len() + i] == deleted_line(b));
        }
    }
}

/// The transcript only ever grows: no step discards or rewrites what was
/// already recorded.
pub proof fn lemma_transcript_append_only(m: EngineModel, e: EventModel)
    ensures
        m.messages.is_prefix_of(engine_next(m, e).messages),
{
    assert(m.messages =~= engine_next(m, e).messages.subrange(0, m.messages.len() as int));
}

/// Over a whole run: the transcript at the start stays a prefix of the
/// transcript at the end.
pub proof fn lemma_transcript_append_only_run(m: EngineModel, events: Seq<EventModel>)
    ensures
        m.messages.is_prefix_of(engine_run(m, events).messages),
    decreases events.len(),
{
    if events.len() > 0 {
        let n = engine_next(m, events[0]);
        lemma_transcript_append_only(m, events[0]);
        lemma_transcript_append_only_run(n, events.skip(1));
        let f = engine_run(m, events);
        assert(m.messages =~= f.messages.subrange(0, m.messages.len() as int));
    }
}

/// A fast-forwarded pull is reported in the transcript whenever the engine
/// is not quiet.
pub proof fn lemma_fast_forward_is_reported(m: EngineModel, p: PullModel)
    requires
        m.state is Pull,
        p.status == PullFastForwardStatus::FastForwarded,
        m.verbosity != Verbosity::Quiet,
    ensures
        engine_next(
            m,
            EventModel::PullFinished(Ok::<PullModel, GitErrorModel>(p)),
        ).messages.contains("Fast-forwarded"@),
{
    let n = engine_next(m, EventModel::PullFinished(Ok::<PullModel, GitErrorModel>(p)));
    assert(n.messages[m.messages.len() as int] == "Fast-forwarded"@);
}

/// And once reported, the fast-forward stays in the transcript for the
/// rest of the run, however the refresh continues.
pub proof fn lemma_fast_forward_stays_reported(
    m: EngineModel,
    p: PullModel,
    events: Seq<EventModel>,
)
    requires
        m.state is Pull,
        p.status == PullFastForwardStatus::FastForwarded,
        m.verbosity != Verbosity::Quiet,
    ensures
        engine_run(
            engine_next(m, EventModel::PullFinished(Ok::<PullModel, GitErrorModel>(p))),
            events,
        ).messages.contains("Fast-forwarded"@),
{
    let n = engine_next(m, EventModel::PullFinished(Ok::<PullModel, GitErrorModel>(p)));
    lemma_fast_forward_is_reported(m, p);
    lemma_transcript_append_only_run(n, events);
    let f = engine_run(n, events);
    assert(n.messages[m.messages.len() as int] == "Fast-forwarded"@);
    assert(f.messages[m.messages.len() as int] == "Fast-forwarded"@);
}

/// An aborted fast-forward is tolerated: the refresh proceeds to pruning,
/// fails nothing, and records nothing extra. The divergence is reported by
/// the caller, never resolved here.
pub proof fn lemma_aborted_pull_is_tolerated(m: EngineModel, p: PullModel)
    requires
        m.state is Pull,
        p.status == PullFastForwardStatus::Abort,
    ensures
        ({
            let n = engine_next(m, EventModel::PullFinished(Ok::<PullModel, GitErrorModel>(p)));
            &&& n.state == StateModel::ListMerged {
                default_branch: m.state->Pull_default_branch,
            }
            &&& n.messages == m.messages
        }),
{
    assert(pull_lines(p, m.verbosity) == Seq::<Seq<char>>::empty());
    assert(m.messages + pull_lines(p, m.verbosity) =~= m.messages);
}

} // verus!
