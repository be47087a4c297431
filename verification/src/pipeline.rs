//! The pipeline driver and its state machine: eligibility of an item for each
//! stage, the per-stage transition functions, the pass that maps a whole
//! batch through one stage, survivor counting, and the laws that the driver
//! honours (pass-through of ineligible items, isolation of per-item failures,
//! idempotency of the committed/pushed flags).
//!
//! The actual git, process and network work is done by collaborators outside
//! the library. A caller walks the batch, performs the collaborator call for
//! each eligible item, and hands the outcomes — one per item, aligned with
//! the batch order — to `run_stage`, which builds the next batch state.

use vstd::prelude::*;
use vstd::pervasive::unreached;
use crate::data::{
    BaseDataDefn, BaseStateDefn, BranchedRepo, DataElement, LocalRepo, PRdRepo, PatchedRepo,
    RepoDefn,
};

verus! {

/// One step of the fixed pipeline, in the order the driver runs them.
#[derive(Clone, Copy, Debug, PartialEq, Eq, Structural)]
pub enum Stage {
    Clone,
    Patch,
    Branch,
    Commit,
    Push,
    OpenPr,
}

/// The stage after `s` in the fixed order, if any.
pub open spec fn stage_after(s: Stage) -> Option<Stage> {
    match s {
        Stage::Clone => Some(Stage::Patch),
        Stage::Patch => Some(Stage::Branch),
        Stage::Branch => Some(Stage::Commit),
        Stage::Commit => Some(Stage::Push),
        Stage::Push => Some(Stage::OpenPr),
        Stage::OpenPr => None,
    }
}

impl Stage {
    /// The stage a run starts with.
    pub fn first() -> (s: Stage)
        ensures
            s == Stage::Clone,
    {
        Stage::Clone
    }

    /// The stage after this one, in the fixed order Clone, Patch, Branch,
    /// Commit, Push, OpenPr.
    pub fn next(self) -> (r: Option<Stage>)
        ensures
            r == stage_after(self),
    {
        match self {
            Stage::Clone => Some(Stage::Patch),
            Stage::Patch => Some(Stage::Branch),
            Stage::Branch => Some(Stage::Commit),
            Stage::Commit => Some(Stage::Push),
            Stage::Push => Some(Stage::OpenPr),
            Stage::OpenPr => None,
        }
    }
}

/// The working directory a repository is cloned into: an explicit override
/// path, or `<owner>/<name>` relative to the current directory.
pub fn clone_dest_path(defn: &RepoDefn, path_override: Option<String>) -> (r: String)
    ensures
        match path_override {
            Some(p) => r == p,
            None => r@ == defn.owner@ + "/"@ + defn.name@,
        },
{
    match path_override {
        Some(p) => p,
        None => {
            let mut s = String::new();
            s.append(defn.owner.as_str());
            s.append("/");
            s.append(defn.name.as_str());
            proof {
                assert(s@ =~= defn.owner@ + "/"@ + defn.name@);
            }
            s
        },
    }
}

/// What the clone collaborator reports for one eligible item: the local
/// working path it used, and the error text if the clone (or the cleanup of
/// an already-existing working tree) failed.
#[derive(Clone, Debug, PartialEq)]
pub struct CloneOutcome {
    pub local_path: String,
    pub error: Option<String>,
}

/// What the patch collaborator reports: on a clean process exit, the combined
/// output text and the number of files changed; on a failing exit, the
/// combined output text alone.
#[derive(Clone, Debug, PartialEq)]
pub enum PatchOutcome {
    Applied { output: String, changes: usize },
    Failed { output: String },
}

/// What the branch collaborator reports: the branch name this run uses, and
/// the error text if creating the branch failed (for instance because the
/// name already exists).
#[derive(Clone, Debug, PartialEq)]
pub struct BranchOutcome {
    pub branch_name: String,
    pub error: Option<String>,
}

/// What the commit collaborator reports.
#[derive(Clone, Debug, PartialEq)]
pub struct CommitOutcome {
    pub error: Option<String>,
}

/// What the push collaborator reports.
#[derive(Clone, Debug, PartialEq)]
pub struct PushOutcome {
    pub error: Option<String>,
}

/// What the pull-request collaborator reports: the URL of the opened pull
/// request, or the error text.
#[derive(Clone, Debug, PartialEq)]
pub enum PrOutcome {
    Opened { url: String },
    Failed { error: String },
}

/// The outcome of one collaborator call, tagged by the stage it belongs to.
#[derive(Clone, Debug, PartialEq)]
pub enum StageOutcome {
    Clone(CloneOutcome),
    Patch(PatchOutcome),
    Branch(BranchOutcome),
    Commit(CommitOutcome),
    Push(PushOutcome),
    OpenPr(PrOutcome),
}

/// Whether an item is eligible for a stage: a fresh instance of the stage's
/// predecessor variant, or the shape the stage's own failure leaves behind,
/// where the stage re-attempts its work.
pub open spec fn eligible(stage: Stage, e: DataElement) -> bool {
    match stage {
        Stage::Clone => match e {
            DataElement::RemoteRepo(_) => true,
            DataElement::LocalRepo(l) => l.last_error is Some,
            _ => false,
        },
        Stage::Patch => e matches DataElement::LocalRepo(l) && l.last_error is None,
        Stage::Branch => match e {
            DataElement::PatchedRepo(p) => p.success && p.changes > 0,
            DataElement::BranchedRepo(b) => b.last_error is Some && !b.committed,
            _ => false,
        },
        Stage::Commit => e matches DataElement::BranchedRepo(b) && !b.committed
            && b.last_error is None,
        Stage::Push => e matches DataElement::BranchedRepo(b) && b.committed && !b.pushed,
        Stage::OpenPr => e matches DataElement::BranchedRepo(b) && b.committed && b.pushed,
    }
}

/// Executable eligibility test, for walking the batch before a pass.
pub fn is_eligible(stage: Stage, e: &DataElement) -> (b: bool)
    ensures
        b == eligible(stage, *e),
{
    match stage {
        Stage::Clone => match e {
            DataElement::RemoteRepo(_) => true,
            DataElement::LocalRepo(l) => l.last_error.is_some(),
            _ => false,
        },
        Stage::Patch => match e {
            DataElement::LocalRepo(l) => l.last_error.is_none(),
            _ => false,
        },
        Stage::Branch => match e {
            DataElement::PatchedRepo(p) => p.success && p.changes > 0,
            DataElement::BranchedRepo(b) => b.last_error.is_some() && !b.committed,
            _ => false,
        },
        Stage::Commit => match e {
            DataElement::BranchedRepo(b) => !b.committed && b.last_error.is_none(),
            _ => false,
        },
        Stage::Push => match e {
            DataElement::BranchedRepo(b) => b.committed && !b.pushed,
            _ => false,
        },
        Stage::OpenPr => match e {
            DataElement::BranchedRepo(b) => b.committed && b.pushed,
            _ => false,
        },
    }
}

/// Whether an outcome carries the kind of result the given stage produces.
pub open spec fn outcome_fits(stage: Stage, oc: StageOutcome) -> bool {
    match oc {
        StageOutcome::Clone(_) => stage == Stage::Clone,
        StageOutcome::Patch(_) => stage == Stage::Patch,
        StageOutcome::Branch(_) => stage == Stage::Branch,
        StageOutcome::Commit(_) => stage == Stage::Commit,
        StageOutcome::Push(_) => stage == Stage::Push,
        StageOutcome::OpenPr(_) => stage == Stage::OpenPr,
    }
}

/// Whether an outcome advances its item cleanly: the collaborator succeeded,
/// and — for the patch stage — actually changed at least one file.
pub open spec fn outcome_progressed(oc: StageOutcome) -> bool {
    match oc {
        StageOutcome::Clone(c) => c.error is None,
        StageOutcome::Patch(p) => p matches PatchOutcome::Applied { output: _, changes }
            && changes > 0,
        StageOutcome::Branch(b) => b.error is None,
        StageOutcome::Commit(c) => c.error is None,
        StageOutcome::Push(p) => p.error is None,
        StageOutcome::OpenPr(p) => p is Opened,
    }
}

/// Executable test for `outcome_progressed`.
pub fn outcome_progressed_exec(oc: &StageOutcome) -> (b: bool)
    ensures
        b == outcome_progressed(*oc),
{
    match oc {
        StageOutcome::Clone(c) => c.error.is_none(),
        StageOutcome::Patch(p) => match p {
            PatchOutcome::Applied { output: _, changes } => *changes > 0,
            PatchOutcome::Failed { .. } => false,
        },
        StageOutcome::Branch(b) => b.error.is_none(),
        StageOutcome::Commit(c) => c.error.is_none(),
        StageOutcome::Push(p) => p.error.is_none(),
        StageOutcome::OpenPr(p) => match p {
            PrOutcome::Opened { .. } => true,
            PrOutcome::Failed { .. } => false,
        },
    }
}

/// The repository identity an item carries, whatever its variant.
pub open spec fn defn_of(e: DataElement) -> RepoDefn {
    match e {
        DataElement::RemoteRepo(d) => d,
        DataElement::LocalRepo(l) => l.defn,
        DataElement::PatchedRepo(p) => p.repo.defn,
        DataElement::BranchedRepo(b) => b.patched.repo.defn,
        DataElement::PRdRepo(p) => p.branched.patched.repo.defn,
    }
}

/// The local record of a patch-eligible item.
pub open spec fn local_of(e: DataElement) -> LocalRepo {
    match e {
        DataElement::LocalRepo(l) => l,
        _ => arbitrary(),
    }
}

/// The patched record a branch-eligible item carries: its own for a patched
/// item, the embedded one for a branched item being re-attempted.
pub open spec fn patched_of(e: DataElement) -> PatchedRepo {
    match e {
        DataElement::PatchedRepo(p) => p,
        DataElement::BranchedRepo(b) => b.patched,
        _ => arbitrary(),
    }
}

/// The branched record of a commit-, push- or pull-request-eligible item.
pub open spec fn branched_of(e: DataElement) -> BranchedRepo {
    match e {
        DataElement::BranchedRepo(b) => b,
        _ => arbitrary(),
    }
}

/// The clone stage function: the item becomes a local record carrying the
/// repository identity, the working path, and the error text if any.
pub open spec fn clone_step_spec(e: DataElement, oc: CloneOutcome) -> DataElement {
    DataElement::LocalRepo(
        LocalRepo { defn: defn_of(e), local_path: oc.local_path, last_error: oc.error },
    )
}

/// The patch stage function: a clean exit yields a successful patched record
/// with the reported change count; a failing exit yields an unsuccessful one
/// with zero changes. The output text is kept either way.
pub open spec fn patch_step_spec(e: DataElement, oc: PatchOutcome) -> DataElement {
    match oc {
        PatchOutcome::Applied { output, changes } => DataElement::PatchedRepo(
            PatchedRepo { repo: local_of(e), changes, output, success: true },
        ),
        PatchOutcome::Failed { output } => DataElement::PatchedRepo(
            PatchedRepo { repo: local_of(e), changes: 0, output, success: false },
        ),
    }
}

/// The branch stage function: a fresh branched record on the stage's branch
/// name, not yet committed or pushed, carrying the error text if creating
/// the branch failed.
pub open spec fn branch_step_spec(e: DataElement, oc: BranchOutcome) -> DataElement {
    DataElement::BranchedRepo(
        BranchedRepo {
            patched: patched_of(e),
            branch_name: oc.branch_name,
            committed: false,
            pushed: false,
            last_error: oc.error,
        },
    )
}

/// The commit stage function: success sets the `committed` flag; failure
/// leaves it unset and records the error for a later re-branch.
pub open spec fn commit_step_spec(e: DataElement, oc: CommitOutcome) -> DataElement {
    let b = branched_of(e);
    match oc.error {
        None => DataElement::BranchedRepo(BranchedRepo { committed: true, ..b }),
        Some(m) => DataElement::BranchedRepo(
            BranchedRepo { committed: false, last_error: Some(m), ..b },
        ),
    }
}

/// The push stage function: success sets the `pushed` flag and clears the
/// error; failure records the error without touching `committed`.
pub open spec fn push_step_spec(e: DataElement, oc: PushOutcome) -> DataElement {
    let b = branched_of(e);
    match oc.error {
        None => DataElement::BranchedRepo(BranchedRepo { pushed: true, last_error: None, ..b }),
        Some(m) => DataElement::BranchedRepo(
            BranchedRepo { pushed: false, last_error: Some(m), ..b },
        ),
    }
}

/// The pull-request stage function: success converts the record, carrying the
/// pull-request URL; failure records the error and preserves the committed
/// and pushed flags, so only this stage retries.
pub open spec fn open_pr_step_spec(e: DataElement, oc: PrOutcome) -> DataElement {
    let b = branched_of(e);
    match oc {
        PrOutcome::Opened { url } => DataElement::PRdRepo(PRdRepo { branched: b, url }),
        PrOutcome::Failed { error } => DataElement::BranchedRepo(
            BranchedRepo { last_error: Some(error), ..b },
        ),
    }
}

/// The stage function an outcome selects.
pub open spec fn step_spec(e: DataElement, oc: StageOutcome) -> DataElement {
    match oc {
        StageOutcome::Clone(c) => clone_step_spec(e, c),
        StageOutcome::Patch(p) => patch_step_spec(e, p),
        StageOutcome::Branch(b) => branch_step_spec(e, b),
        StageOutcome::Commit(c) => commit_step_spec(e, c),
        StageOutcome::Push(p) => push_step_spec(e, p),
        StageOutcome::OpenPr(p) => open_pr_step_spec(e, p),
    }
}

/// The item is eligible for the stage the outcome belongs to.
pub open spec fn step_allowed(e: DataElement, oc: StageOutcome) -> bool {
    match oc {
        StageOutcome::Clone(_) => eligible(Stage::Clone, e),
        StageOutcome::Patch(_) => eligible(Stage::Patch, e),
        StageOutcome::Branch(_) => eligible(Stage::Branch, e),
        StageOutcome::Commit(_) => eligible(Stage::Commit, e),
        StageOutcome::Push(_) => eligible(Stage::Push, e),
        StageOutcome::OpenPr(_) => eligible(Stage::OpenPr, e),
    }
}

/// The clone stage on one eligible item: a remote, or a local whose earlier
/// clone failed.
pub fn clone_step(e: DataElement, oc: CloneOutcome) -> (r: DataElement)
    requires
        eligible(Stage::Clone, e),
    ensures
        r == clone_step_spec(e, oc),
{
    let defn = match e {
        DataElement::RemoteRepo(d) => d,
        DataElement::LocalRepo(l) => l.defn,
        _ => unreached(),
    };
    DataElement::LocalRepo(
        LocalRepo { defn, local_path: oc.local_path, last_error: oc.error },
    )
}

/// The patch stage on one eligible item: a local record without an error.
pub fn patch_step(e: DataElement, oc: PatchOutcome) -> (r: DataElement)
    requires
        eligible(Stage::Patch, e),
    ensures
        r == patch_step_spec(e, oc),
{
    let l = match e {
        DataElement::LocalRepo(l) => l,
        _ => unreached(),
    };
    match oc {
        PatchOutcome::Applied { output, changes } => DataElement::PatchedRepo(
            PatchedRepo { repo: l, changes, output, success: true },
        ),
        PatchOutcome::Failed { output } => DataElement::PatchedRepo(
            PatchedRepo { repo: l, changes: 0, output, success: false },
        ),
    }
}

/// The branch stage on one eligible item: a cleanly patched record with
/// changes, or a branched record whose branch attempt failed before commit.
pub fn branch_step(e: DataElement, oc: BranchOutcome) -> (r: DataElement)
    requires
        eligible(Stage::Branch, e),
    ensures
        r == branch_step_spec(e, oc),
{
    let p = match e {
        DataElement::PatchedRepo(p) => p,
        DataElement::BranchedRepo(b) => b.patched,
        _ => unreached(),
    };
    DataElement::BranchedRepo(
        BranchedRepo {
            patched: p,
            branch_name: oc.branch_name,
            committed: false,
            pushed: false,
            last_error: oc.error,
        },
    )
}

/// The commit stage on one eligible item: branched, not committed, no live
/// error.
pub fn commit_step(e: DataElement, oc: CommitOutcome) -> (r: DataElement)
    requires
        eligible(Stage::Commit, e),
    ensures
        r == commit_step_spec(e, oc),
{
    let b = match e {
        DataElement::BranchedRepo(b) => b,
        _ => unreached(),
    };
    match oc.error {
        None => DataElement::BranchedRepo(
            BranchedRepo {
                patched: b.patched,
                branch_name: b.branch_name,
                committed: true,
                pushed: b.pushed,
                last_error: b.last_error,
            },
        ),
        Some(m) => DataElement::BranchedRepo(
            BranchedRepo {
                patched: b.patched,
                branch_name: b.branch_name,
                committed: false,
                pushed: b.pushed,
                last_error: Some(m),
            },
        ),
    }
}

/// The push stage on one eligible item: branched, committed, not pushed.
pub fn push_step(e: DataElement, oc: PushOutcome) -> (r: DataElement)
    requires
        eligible(Stage::Push, e),
    ensures
        r == push_step_spec(e, oc),
{
    let b = match e {
        DataElement::BranchedRepo(b) => b,
        _ => unreached(),
    };
    match oc.error {
        None => DataElement::BranchedRepo(
            BranchedRepo {
                patched: b.patched,
                branch_name: b.branch_name,
                committed: b.committed,
                pushed: true,
                last_error: None,
            },
        ),
        Some(m) => DataElement::BranchedRepo(
            BranchedRepo {
                patched: b.patched,
                branch_name: b.branch_name,
                committed: b.committed,
                pushed: false,
                last_error: Some(m),
            },
        ),
    }
}

/// The pull-request stage on one eligible item: branched, committed, pushed.
pub fn open_pr_step(e: DataElement, oc: PrOutcome) -> (r: DataElement)
    requires
        eligible(Stage::OpenPr, e),
    ensures
        r == open_pr_step_spec(e, oc),
{
    let b = match e {
        DataElement::BranchedRepo(b) => b,
        _ => unreached(),
    };
    match oc {
        PrOutcome::Opened { url } => DataElement::PRdRepo(PRdRepo { branched: b, url }),
        PrOutcome::Failed { error } => DataElement::BranchedRepo(
            BranchedRepo {
                patched: b.patched,
                branch_name: b.branch_name,
                committed: b.committed,
                pushed: b.pushed,
                last_error: Some(error),
            },
        ),
    }
}

/// Dispatches one outcome to its stage function.
fn apply_step(e: DataElement, oc: StageOutcome) -> (r: DataElement)
    requires
        step_allowed(e, oc),
    ensures
        r == step_spec(e, oc),
{
    match oc {
        StageOutcome::Clone(c) => clone_step(e, c),
        StageOutcome::Patch(p) => patch_step(e, p),
        StageOutcome::Branch(b) => branch_step(e, b),
        StageOutcome::Commit(c) => commit_step(e, c),
        StageOutcome::Push(p) => push_step(e, p),
        StageOutcome::OpenPr(p) => open_pr_step(e, p),
    }
}

/// The counts a stage pass reports: how many items were eligible, how many
/// advanced cleanly, and how many did not.
#[derive(Clone, Copy, Debug, PartialEq, Eq, Structural)]
pub struct StageReport {
    pub attempted: usize,
    pub progressed: usize,
    pub failed: usize,
}

/// How many of the first `n` items are eligible for the stage.
pub open spec fn count_eligible(stage: Stage, repos: Seq<DataElement>, n: int) -> int
    decreases n,
{
    if n <= 0 {
        0
    } else {
        count_eligible(stage, repos, n - 1) + if eligible(stage, repos[n - 1]) {
            1int
        } else {
            0int
        }
    }
}

/// How many of the first `n` items are eligible and advanced cleanly.
pub open spec fn count_progressed(
    stage: Stage,
    repos: Seq<DataElement>,
    ocs: Seq<Option<StageOutcome>>,
    n: int,
) -> int
    decreases n,
{
    if n <= 0 {
        0
    } else {
        count_progressed(stage, repos, ocs, n - 1) + if eligible(stage, repos[n - 1]) && (ocs[n
            - 1] matches Some(oc) && outcome_progressed(oc)) {
            1int
        } else {
            0int
        }
    }
}

/// The precondition of a stage pass: one outcome slot per item, filled
/// exactly for the eligible items, each of the stage's own kind.
pub open spec fn pass_requires(
    stage: Stage,
    repos: Seq<DataElement>,
    ocs: Seq<Option<StageOutcome>>,
) -> bool {
    &&& ocs.len() == repos.len()
    &&& forall|i: int|
        0 <= i < repos.len() ==> ((#[trigger] ocs[i]) is Some <==> eligible(stage, repos[i]))
    &&& forall|i: int|
        0 <= i < repos.len() ==> ((#[trigger] ocs[i]) matches Some(oc) ==> outcome_fits(
            stage,
            oc,
        ))
}

/// The pointwise contract of a stage pass: an item with an outcome is mapped
/// through the stage function; every other item is copied unchanged —
/// pass-through is itself part of the contract, no item is ever dropped.
pub open spec fn pass_post(
    old_repos: Seq<DataElement>,
    ocs: Seq<Option<StageOutcome>>,
    new_repos: Seq<DataElement>,
) -> bool {
    &&& new_repos.len() == old_repos.len()
    &&& forall|i: int|
        0 <= i < old_repos.len() ==> (#[trigger] new_repos[i]) == (match ocs[i] {
            Some(oc) => step_spec(old_repos[i], oc),
            None => old_repos[i],
        })
}

/// Maps every item of the batch through one stage: eligible items take the
/// stage function on their outcome, all others pass through unchanged, and
/// the order of the collection is preserved. Returns the new state together
/// with the exact counts of attempted, progressed and failed items.
pub fn run_stage(stage: Stage, state: BaseStateDefn, outcomes: Vec<Option<StageOutcome>>) -> (r:
    (BaseStateDefn, StageReport))
    requires
        pass_requires(stage, state.data.repos@, outcomes@),
    ensures
        pass_post(state.data.repos@, outcomes@, r.0.data.repos@),
        r.0.pr_title == state.pr_title,
        r.0.pr_description == state.pr_description,
        r.1.attempted as int == count_eligible(
            stage,
            state.data.repos@,
            state.data.repos@.len() as int,
        ),
        r.1.progressed as int == count_progressed(
            stage,
            state.data.repos@,
            outcomes@,
            state.data.repos@.len() as int,
        ),
        r.1.failed == r.1.attempted - r.1.progressed,
{
    let BaseStateDefn { data, pr_description, pr_title } = state;
    let mut repos = data.repos;
    let mut ocs = outcomes;
    let ghost repos0 = repos@;
    let ghost ocs0 = ocs@;
    let n = repos.len();
    let mut out: Vec<DataElement> = Vec::new();
    let mut attempted: usize = 0;
    let mut progressed: usize = 0;
    proof {
        assert(repos0.skip(0) =~= repos0);
        assert(ocs0.skip(0) =~= ocs0);
    }
    while out.len() < n
        invariant
            n == repos0.len(),
            ocs0.len() == n,
            out@.len() <= n,
            repos@ == repos0.skip(out@.len() as int),
            ocs@ == ocs0.skip(out@.len() as int),
            pass_requires(stage, repos0, ocs0),
            forall|i: int|
                0 <= i < out@.len() ==> (#[trigger] out@[i]) == (match ocs0[i] {
                    Some(oc) => step_spec(repos0[i], oc),
                    None => repos0[i],
                }),
            attempted as int == count_eligible(stage, repos0, out@.len() as int),
            progressed as int == count_progressed(stage, repos0, ocs0, out@.len() as int),
            progressed <= attempted <= out@.len(),
        decreases n - out@.len(),
    {
        let ghost k = out@.len() as int;
        proof {
            assert(repos0.skip(k)[0] == repos0[k]);
            assert(ocs0.skip(k)[0] == ocs0[k]);
            assert(repos0.skip(k).remove(0) =~= repos0.skip(k + 1));
            assert(ocs0.skip(k).remove(0) =~= ocs0.skip(k + 1));
        }
        let e = repos.remove(0);
        let oc = ocs.remove(0);
        match oc {
            Some(o) => {
                attempted += 1;
                if outcome_progressed_exec(&o) {
                    progressed += 1;
                }
                out.push(apply_step(e, o));
            },
            None => {
                out.push(e);
            },
        }
    }
    let failed = attempted - progressed;
    (
        (BaseStateDefn { data: BaseDataDefn { repos: out }, pr_description, pr_title }),
        StageReport { attempted, progressed, failed },
    )
}

/// Whether an item counts as a survivor of a stage: at or beyond the stage's
/// target, with no live failure that the stage would have to redo.
pub open spec fn survivor(stage: Stage, e: DataElement) -> bool {
    match stage {
        Stage::Clone => match e {
            DataElement::RemoteRepo(_) => false,
            DataElement::LocalRepo(l) => l.last_error is None,
            _ => true,
        },
        Stage::Patch => match e {
            DataElement::PatchedRepo(p) => p.success && p.changes > 0,
            DataElement::BranchedRepo(_) => true,
            DataElement::PRdRepo(_) => true,
            _ => false,
        },
        Stage::Branch => match e {
            DataElement::BranchedRepo(b) => b.last_error is None,
            DataElement::PRdRepo(_) => true,
            _ => false,
        },
        Stage::Commit => match e {
            DataElement::BranchedRepo(b) => b.committed || b.pushed,
            DataElement::PRdRepo(_) => true,
            _ => false,
        },
        Stage::Push => match e {
            DataElement::BranchedRepo(b) => b.pushed,
            DataElement::PRdRepo(_) => true,
            _ => false,
        },
        Stage::OpenPr => e is PRdRepo,
    }
}

/// How many of the first `n` items survive the stage.
pub open spec fn count_survivors(stage: Stage, repos: Seq<DataElement>, n: int) -> int
    decreases n,
{
    if n <= 0 {
        0
    } else {
        count_survivors(stage, repos, n - 1) + if survivor(stage, repos[n - 1]) {
            1int
        } else {
            0int
        }
    }
}

/// Executable survivor test.
pub fn is_survivor(stage: Stage, e: &DataElement) -> (b: bool)
    ensures
        b == survivor(stage, *e),
{
    match stage {
        Stage::Clone => match e {
            DataElement::RemoteRepo(_) => false,
            DataElement::LocalRepo(l) => l.last_error.is_none(),
            _ => true,
        },
        Stage::Patch => match e {
            DataElement::PatchedRepo(p) => p.success && p.changes > 0,
            DataElement::BranchedRepo(_) => true,
            DataElement::PRdRepo(_) => true,
            _ => false,
        },
        Stage::Branch => match e {
            DataElement::BranchedRepo(b) => b.last_error.is_none(),
            DataElement::PRdRepo(_) => true,
            _ => false,
        },
        Stage::Commit => match e {
            DataElement::BranchedRepo(b) => b.committed || b.pushed,
            DataElement::PRdRepo(_) => true,
            _ => false,
        },
        Stage::Push => match e {
            DataElement::BranchedRepo(b) => b.pushed,
            DataElement::PRdRepo(_) => true,
            _ => false,
        },
        Stage::OpenPr => match e {
            DataElement::PRdRepo(_) => true,
            _ => false,
        },
    }
}

/// What the driver does after a stage pass has been checkpointed.
#[derive(Clone, Copy, Debug, PartialEq, Eq, Structural)]
pub enum RunDecision {
    /// Go on with the given stage.
    Proceed(Stage),
    /// Abort the whole run: the stage was wiped out.
    Abort,
    /// The last stage is done.
    Done,
}

/// The driver's decision after a pass: abort exactly when no item survived
/// the stage, otherwise proceed to the next stage in the fixed order, or
/// finish after the last one.
pub fn after_pass(stage: Stage, survivors: usize) -> (r: RunDecision)
    ensures
        survivors == 0 ==> r == RunDecision::Abort,
        survivors > 0 ==> r == (match stage_after(stage) {
            Some(s) => RunDecision::Proceed(s),
            None => RunDecision::Done,
        }),
{
    if survivors == 0 {
        RunDecision::Abort
    } else {
        match stage.next() {
            Some(s) => RunDecision::Proceed(s),
            None => RunDecision::Done,
        }
    }
}

/// Counts the survivors of a stage in the whole batch. A run is aborted
/// exactly when this reaches zero after a pass — the only whole-run failure
/// once work has begun; per-item failures never abort the run.
pub fn survivor_count(stage: Stage, state: &BaseStateDefn) -> (c: usize)
    ensures
        c as int == count_survivors(stage, state.data.repos@, state.data.repos@.len() as int),
{
    let mut c: usize = 0;
    let mut i: usize = 0;
    let n = state.data.repos.len();
    while i < n
        invariant
            n == state.data.repos@.len(),
            i <= n,
            c <= i,
            c as int == count_survivors(stage, state.data.repos@, i as int),
        decreases n - i,
    {
        if is_survivor(stage, &state.data.repos[i]) {
            c += 1;
        }
        i += 1;
    }
    c
}

} // verus!
