//! The pull-request stage: building the request that the REST collaborator
//! sends for one branch, and the pass that converts every fully pushed item
//! of the batch on the collaborator's outcomes.

use vstd::prelude::*;
use crate::data::{BaseStateDefn, BranchedRepo};
use crate::pipeline::{
    count_eligible, count_progressed, pass_post, pass_requires, run_stage, Stage, StageOutcome,
    StageReport,
};

verus! {

/// One pull-request creation request, ready for the REST collaborator: the
/// branch the pull request targets, the branch it merges, and its text.
#[derive(Clone, Debug, PartialEq)]
pub struct PrRequest {
    pub base: String,
    pub head: String,
    pub title: String,
    pub body: String,
    pub draft: bool,
    pub maintainer_can_modify: bool,
}

/// Builds the pull-request creation request for one pushed branch: the base
/// is the repository's configured main branch or `main`; title and body fall
/// back to fixed texts when the operator gave none.
pub fn build_pr_request(
    branched: &BranchedRepo,
    pr_title: &Option<String>,
    pr_description: &Option<String>,
) -> (r: PrRequest)
    ensures
        r.base@ == (match branched.patched.repo.defn.main_branch_name {
            Some(m) => m@,
            None => "main"@,
        }),
        r.head@ == branched.branch_name@,
        r.title@ == (match pr_title {
            Some(t) => t@,
            None => "(chore): Batchpatch operations"@,
        }),
        r.body@ == (match pr_description {
            Some(d) => d@,
            None => "Batchpatch applied some operations, please see the commit list for details"@,
        }),
        !r.draft,
        r.maintainer_can_modify,
{
    let base = match &branched.patched.repo.defn.main_branch_name {
        Some(m) => m.clone(),
        None => String::from_str("main"),
    };
    let title = match pr_title {
        Some(t) => t.clone(),
        None => String::from_str("(chore): Batchpatch operations"),
    };
    let body = match pr_description {
        Some(d) => d.clone(),
        None => String::from_str(
            "Batchpatch applied some operations, please see the commit list for details",
        ),
    };
    PrRequest {
        base,
        head: branched.branch_name.clone(),
        title,
        body,
        draft: false,
        maintainer_can_modify: true,
    }
}

/// Raises pull requests for all applicable repositories: the pull-request
/// pass of the pipeline. Every branched item that is committed and pushed is
/// converted on its outcome — to a pull-requested record on success, or back
/// to a branched record carrying the error — and every other item, the
/// pull-request title and the description pass through unchanged.
pub fn create_all_pull_requests(
    state: BaseStateDefn,
    outcomes: Vec<Option<StageOutcome>>,
) -> (r: (BaseStateDefn, StageReport))
    requires
        pass_requires(Stage::OpenPr, state.data.repos@, outcomes@),
    ensures
        pass_post(state.data.repos@, outcomes@, r.0.data.repos@),
        r.0.pr_title == state.pr_title,
        r.0.pr_description == state.pr_description,
        r.1.attempted as int == count_eligible(
            Stage::OpenPr,
            state.data.repos@,
            state.data.repos@.len() as int,
        ),
        r.1.progressed as int == count_progressed(
            Stage::OpenPr,
            state.data.repos@,
            outcomes@,
            state.data.repos@.len() as int,
        ),
        r.1.failed == r.1.attempted - r.1.progressed,
{
    run_stage(Stage::OpenPr, state, outcomes)
}

} // verus!
