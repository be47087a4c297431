//! The properties the pipeline driver guarantees, stated and proved against
//! the contracts of `run_stage` and the stage functions: pass-through of
//! ineligible items, resume correctness, isolation of per-item failures,
//! retention of no-op patches, the commit precondition, and monotonicity of
//! the idempotency flags.

use vstd::prelude::*;
use crate::data::DataElement;
use crate::pipeline::{
    branched_of, count_progressed, count_survivors, eligible, outcome_fits, outcome_progressed,
    pass_post, pass_requires, patch_step_spec, step_spec, survivor, PatchOutcome, Stage,
    StageOutcome,
};

verus! {

/// Stage idempotence of the clone stage: an item already in non-failed local
/// form is not clone-eligible, so a clone pass copies it unchanged.
pub proof fn lemma_clone_stage_idempotent(
    old_repos: Seq<DataElement>,
    ocs: Seq<Option<StageOutcome>>,
    new_repos: Seq<DataElement>,
    i: int,
)
    requires
        pass_requires(Stage::Clone, old_repos, ocs),
        pass_post(old_repos, ocs, new_repos),
        0 <= i < old_repos.len(),
        old_repos[i] matches DataElement::LocalRepo(l) && l.last_error is None,
    ensures
        new_repos[i] == old_repos[i],
{
    assert(!eligible(Stage::Clone, old_repos[i]));
}

/// Which items carry a live last-error at a stage: the exact shape that the
/// stage's own failure leaves behind and that the same stage re-attempts.
/// The patch and commit stages leave no such shape: a failed patch is not
/// re-patched, and a failed commit re-enters through the branch stage.
pub open spec fn error_at(stage: Stage, e: DataElement) -> bool {
    match stage {
        Stage::Clone => e matches DataElement::LocalRepo(l) && l.last_error is Some,
        Stage::Branch => e matches DataElement::BranchedRepo(b) && b.last_error is Some
            && !b.committed,
        Stage::Push => e matches DataElement::BranchedRepo(b) && b.committed && !b.pushed
            && b.last_error is Some,
        Stage::OpenPr => e matches DataElement::BranchedRepo(b) && b.committed && b.pushed
            && b.last_error is Some,
        _ => false,
    }
}

/// Cleanly at or beyond a stage's target: the item has passed the stage and
/// carries no failure that the stage would have to redo.
pub open spec fn clean_at_or_beyond(stage: Stage, e: DataElement) -> bool {
    match stage {
        Stage::Clone => match e {
            DataElement::RemoteRepo(_) => false,
            DataElement::LocalRepo(l) => l.last_error is None,
            _ => true,
        },
        Stage::Branch => match e {
            DataElement::BranchedRepo(b) => b.committed || b.last_error is None,
            DataElement::PRdRepo(_) => true,
            _ => false,
        },
        Stage::Push => match e {
            DataElement::BranchedRepo(b) => b.pushed,
            DataElement::PRdRepo(_) => true,
            _ => false,
        },
        Stage::OpenPr => e is PRdRepo,
        _ => false,
    }
}

/// Resume correctness, for the stages that re-attempt their own failures
/// (clone, branch, push, open-pr): in a state where the items carrying a
/// last-error at the stage are exactly the error set and every other item is
/// cleanly at or beyond the stage, a pass of that stage invokes the stage
/// function exactly on the error set — one outcome slot is filled for each
/// of them and for nothing else — and copies every other item unchanged.
pub proof fn lemma_resume_correctness(
    stage: Stage,
    old_repos: Seq<DataElement>,
    ocs: Seq<Option<StageOutcome>>,
    new_repos: Seq<DataElement>,
)
    requires
        stage == Stage::Clone || stage == Stage::Branch || stage == Stage::Push || stage
            == Stage::OpenPr,
        pass_requires(stage, old_repos, ocs),
        pass_post(old_repos, ocs, new_repos),
        forall|i: int|
            0 <= i < old_repos.len() ==> error_at(stage, #[trigger] old_repos[i])
                || clean_at_or_beyond(stage, old_repos[i]),
    ensures
        forall|i: int|
            0 <= i < old_repos.len() ==> (eligible(stage, #[trigger] old_repos[i]) <==> error_at(
                stage,
                old_repos[i],
            )),
        forall|i: int|
            0 <= i < old_repos.len() ==> ((#[trigger] ocs[i]) is Some <==> error_at(
                stage,
                old_repos[i],
            )),
        forall|i: int|
            0 <= i < old_repos.len() && !error_at(stage, old_repos[i])
                ==> #[trigger] new_repos[i] == old_repos[i],
{
    assert forall|i: int| 0 <= i < old_repos.len() implies (eligible(
        stage,
        #[trigger] old_repos[i],
    ) <==> error_at(stage, old_repos[i])) by {
        assert(error_at(stage, old_repos[i]) || clean_at_or_beyond(stage, old_repos[i]));
    }
}

/// An eligible item whose outcome progressed becomes a survivor of the stage.
pub proof fn lemma_progressed_step_survives(stage: Stage, e: DataElement, oc: StageOutcome)
    requires
        eligible(stage, e),
        outcome_fits(stage, oc),
        outcome_progressed(oc),
    ensures
        survivor(stage, step_spec(e, oc)),
{
}

/// If some of the first `n` items progressed, one of them is a witness.
proof fn lemma_progressed_witness(
    stage: Stage,
    repos: Seq<DataElement>,
    ocs: Seq<Option<StageOutcome>>,
    n: int,
)
    requires
        0 <= n <= repos.len(),
        ocs.len() == repos.len(),
        count_progressed(stage, repos, ocs, n) > 0,
    ensures
        exists|i: int|
            0 <= i < n && eligible(stage, #[trigger] repos[i]) && (ocs[i] matches Some(oc)
                && outcome_progressed(oc)),
    decreases n,
{
    if n > 0 {
        if eligible(stage, repos[n - 1]) && (ocs[n - 1] matches Some(oc)
            && outcome_progressed(oc)) {
            assert(eligible(stage, repos[n - 1]));
        } else {
            lemma_progressed_witness(stage, repos, ocs, n - 1);
        }
    }
}

/// A surviving item below `n` makes the survivor count of the first `n`
/// items positive.
proof fn lemma_survivor_positive(stage: Stage, repos: Seq<DataElement>, i: int, n: int)
    requires
        0 <= i < n <= repos.len(),
        survivor(stage, repos[i]),
    ensures
        count_survivors(stage, repos, n) > 0,
    decreases n,
{
    if i < n - 1 {
        lemma_survivor_positive(stage, repos, i, n - 1);
    } else {
        lemma_survivors_nonneg(stage, repos, n - 1);
    }
}

/// A survivor count is never negative.
proof fn lemma_survivors_nonneg(stage: Stage, repos: Seq<DataElement>, n: int)
    ensures
        count_survivors(stage, repos, n) >= 0,
    decreases n,
{
    if n > 0 {
        lemma_survivors_nonneg(stage, repos, n - 1);
    }
}

/// Partial failure: over a stage pass, per-item failures never abort the run
/// on their own — whenever at least one eligible item progressed, at least
/// one item survives the stage, so the zero-survivor abort cannot fire; a
/// pass is aborted only when every eligible item failed. The counts a pass
/// reports are pinned exactly by the contract of `run_stage`.
pub proof fn lemma_partial_failure(
    stage: Stage,
    old_repos: Seq<DataElement>,
    ocs: Seq<Option<StageOutcome>>,
    new_repos: Seq<DataElement>,
)
    requires
        pass_requires(stage, old_repos, ocs),
        pass_post(old_repos, ocs, new_repos),
        count_progressed(stage, old_repos, ocs, old_repos.len() as int) > 0,
    ensures
        count_survivors(stage, new_repos, new_repos.len() as int) > 0,
{
    lemma_progressed_witness(stage, old_repos, ocs, old_repos.len() as int);
    let i = choose|i: int|
        0 <= i < old_repos.len() && eligible(stage, #[trigger] old_repos[i]) && (ocs[i]
            matches Some(oc) && outcome_progressed(oc));
    match ocs[i] {
        Some(oc) => {
            lemma_progressed_step_survives(stage, old_repos[i], oc);
            assert(new_repos[i] == step_spec(old_repos[i], oc));
            lemma_survivor_positive(stage, new_repos, i, new_repos.len() as int);
        },
        None => {
            assert(false);
        },
    }
}

/// A no-op patch: an application that exits cleanly but changes no files
/// yields a record marked successful with zero changes. Such a record is not
/// eligible for the branch stage — or for any other — and does not count as
/// a patch survivor, yet every later pass copies it unchanged, so it stays
/// in the persisted state.
pub proof fn lemma_noop_patch(e: DataElement, output: String)
    requires
        eligible(Stage::Patch, e),
    ensures
        ({
            let r = patch_step_spec(e, PatchOutcome::Applied { output, changes: 0 });
            &&& r matches DataElement::PatchedRepo(p) && p.success && p.changes == 0
            &&& !survivor(Stage::Patch, r)
            &&& forall|stage: Stage| !eligible(stage, r)
        }),
{
    let r = patch_step_spec(e, PatchOutcome::Applied { output, changes: 0 });
    assert forall|stage: Stage| !eligible(stage, r) by {
        assert(r matches DataElement::PatchedRepo(p) && p.success && p.changes == 0);
    }
}

/// The commit precondition: the commit stage refuses any branched item that
/// carries a live last-error — no outcome slot may be filled for it, and a
/// commit pass copies it unchanged. While it is not yet committed, such an
/// item re-enters through the branch stage, which alone can clear the error.
pub proof fn lemma_commit_rejects_errored(
    old_repos: Seq<DataElement>,
    ocs: Seq<Option<StageOutcome>>,
    new_repos: Seq<DataElement>,
    i: int,
)
    requires
        pass_requires(Stage::Commit, old_repos, ocs),
        pass_post(old_repos, ocs, new_repos),
        0 <= i < old_repos.len(),
        old_repos[i] matches DataElement::BranchedRepo(b) && b.last_error is Some,
    ensures
        !eligible(Stage::Commit, old_repos[i]),
        ocs[i] is None,
        new_repos[i] == old_repos[i],
        !branched_of(old_repos[i]).committed ==> eligible(Stage::Branch, old_repos[i]),
{
}

/// The committed flag an item carries, if any.
pub open spec fn committed_flag(e: DataElement) -> bool {
    match e {
        DataElement::BranchedRepo(b) => b.committed,
        DataElement::PRdRepo(p) => p.branched.committed,
        _ => false,
    }
}

/// The pushed flag an item carries, if any.
pub open spec fn pushed_flag(e: DataElement) -> bool {
    match e {
        DataElement::BranchedRepo(b) => b.pushed,
        DataElement::PRdRepo(p) => p.branched.pushed,
        _ => false,
    }
}

/// An item's rung on the lifecycle ladder.
pub open spec fn rung(e: DataElement) -> int {
    match e {
        DataElement::RemoteRepo(_) => 0,
        DataElement::LocalRepo(_) => 1,
        DataElement::PatchedRepo(_) => 2,
        DataElement::BranchedRepo(_) => 3,
        DataElement::PRdRepo(_) => 4,
    }
}

/// Progression is monotonic: no stage function moves an item down the
/// ladder; a re-attempt leaves it on its rung, a success moves it up one.
pub proof fn lemma_progress_monotonic(stage: Stage, e: DataElement, oc: StageOutcome)
    requires
        eligible(stage, e),
        outcome_fits(stage, oc),
    ensures
        rung(step_spec(e, oc)) >= rung(e),
{
}

/// The branch name an item carries, if any.
pub open spec fn branch_name_of(e: DataElement) -> Option<String> {
    match e {
        DataElement::BranchedRepo(b) => Some(b.branch_name),
        DataElement::PRdRepo(p) => Some(p.branched.branch_name),
        _ => None,
    }
}

/// Once assigned, a branch name is immutable: every stage after the branch
/// stage preserves it.
pub proof fn lemma_branch_name_stable(stage: Stage, e: DataElement, oc: StageOutcome)
    requires
        eligible(stage, e),
        outcome_fits(stage, oc),
        stage == Stage::Commit || stage == Stage::Push || stage == Stage::OpenPr,
    ensures
        branch_name_of(step_spec(e, oc)) == branch_name_of(e),
{
}

/// The idempotency flags never regress: on any item that respects the
/// ladder's ordering of its flags — pushed only after committed — no stage
/// function resets a set `committed` or `pushed` flag.
pub proof fn lemma_flags_monotonic(stage: Stage, e: DataElement, oc: StageOutcome)
    requires
        eligible(stage, e),
        outcome_fits(stage, oc),
        pushed_flag(e) ==> committed_flag(e),
    ensures
        committed_flag(e) ==> committed_flag(step_spec(e, oc)),
        pushed_flag(e) ==> pushed_flag(step_spec(e, oc)),
{
}

} // verus!
