use batchpatch::data::{
    BaseDataDefn, BaseStateDefn, BranchedRepo, DataElement, LocalRepo, PatchedRepo, RepoDefn,
};
use batchpatch::github::create_all_pull_requests;
use batchpatch::pipeline::{
    branch_step, clone_step, commit_step, is_eligible, is_survivor, open_pr_step, patch_step,
    push_step, run_stage, survivor_count, BranchOutcome, CloneOutcome, CommitOutcome,
    PatchOutcome, PrOutcome, PushOutcome, Stage, StageOutcome,
};

fn defn(owner: &str, name: &str) -> RepoDefn {
    RepoDefn {
        owner: owner.to_string(),
        name: name.to_string(),
        main_branch_name: None,
    }
}

fn local(owner: &str, name: &str, err: Option<&str>) -> LocalRepo {
    LocalRepo {
        defn: defn(owner, name),
        local_path: format!("{}/{}", owner, name),
        last_error: err.map(|e| e.to_string()),
    }
}

fn patched(owner: &str, name: &str, changes: usize, success: bool) -> PatchedRepo {
    PatchedRepo {
        repo: local(owner, name, None),
        changes,
        output: "ok".to_string(),
        success,
    }
}

fn branched(
    owner: &str,
    name: &str,
    committed: bool,
    pushed: bool,
    err: Option<&str>,
) -> BranchedRepo {
    BranchedRepo {
        patched: patched(owner, name, 1, true),
        branch_name: "fixes".to_string(),
        committed,
        pushed,
        last_error: err.map(|e| e.to_string()),
    }
}

fn state_of(repos: Vec<DataElement>) -> BaseStateDefn {
    BaseStateDefn {
        data: BaseDataDefn { repos },
        pr_description: None,
        pr_title: None,
    }
}

#[test]
fn test_clone_step_success_and_failure() {
    let r = clone_step(
        DataElement::RemoteRepo(defn("o", "r")),
        CloneOutcome {
            local_path: "o/r".to_string(),
            error: None,
        },
    );
    assert_eq!(
        r,
        DataElement::LocalRepo(local("o", "r", None))
    );

    // A failed local is re-attempted; a failure keeps the error text.
    let r2 = clone_step(
        DataElement::LocalRepo(local("o", "r", Some("old error"))),
        CloneOutcome {
            local_path: "o/r".to_string(),
            error: Some("host unreachable".to_string()),
        },
    );
    assert_eq!(
        r2,
        DataElement::LocalRepo(local("o", "r", Some("host unreachable")))
    );
}

#[test]
fn test_patch_step_outcomes() {
    let ok = patch_step(
        DataElement::LocalRepo(local("o", "r", None)),
        PatchOutcome::Applied {
            output: "patched\n".to_string(),
            changes: 4,
        },
    );
    match ok {
        DataElement::PatchedRepo(p) => {
            assert!(p.success);
            assert_eq!(p.changes, 4);
            assert_eq!(p.output, "patched\n");
        }
        _ => panic!("expected a patched record"),
    }

    let failed = patch_step(
        DataElement::LocalRepo(local("o", "r", None)),
        PatchOutcome::Failed {
            output: "hunk rejected".to_string(),
        },
    );
    match failed {
        DataElement::PatchedRepo(p) => {
            assert!(!p.success);
            assert_eq!(p.changes, 0);
            assert_eq!(p.output, "hunk rejected");
        }
        _ => panic!("expected a patched record"),
    }
}

#[test]
fn test_branch_step_fresh_and_retry() {
    let fresh = branch_step(
        DataElement::PatchedRepo(patched("o", "r", 2, true)),
        BranchOutcome {
            branch_name: "fixes".to_string(),
            error: None,
        },
    );
    match &fresh {
        DataElement::BranchedRepo(b) => {
            assert_eq!(b.branch_name, "fixes");
            assert!(!b.committed);
            assert!(!b.pushed);
            assert!(b.last_error.is_none());
        }
        _ => panic!("expected a branched record"),
    }

    // A branched record with an error and no commit is re-attempted.
    let retry = branch_step(
        DataElement::BranchedRepo(branched("o", "r", false, false, Some("branch exists"))),
        BranchOutcome {
            branch_name: "fixes".to_string(),
            error: Some("branch exists".to_string()),
        },
    );
    match &retry {
        DataElement::BranchedRepo(b) => {
            assert_eq!(b.last_error.as_deref(), Some("branch exists"));
            assert!(!b.committed);
        }
        _ => panic!("expected a branched record"),
    }
}

#[test]
fn test_commit_step_sets_flag_or_records_error() {
    let ok = commit_step(
        DataElement::BranchedRepo(branched("o", "r", false, false, None)),
        CommitOutcome { error: None },
    );
    match ok {
        DataElement::BranchedRepo(b) => {
            assert!(b.committed);
            assert!(!b.pushed);
            assert!(b.last_error.is_none());
        }
        _ => panic!("expected a branched record"),
    }

    let failed = commit_step(
        DataElement::BranchedRepo(branched("o", "r", false, false, None)),
        CommitOutcome {
            error: Some("index locked".to_string()),
        },
    );
    match failed {
        DataElement::BranchedRepo(b) => {
            assert!(!b.committed);
            assert_eq!(b.last_error.as_deref(), Some("index locked"));
        }
        _ => panic!("expected a branched record"),
    }
}

#[test]
fn test_push_step_keeps_committed_on_failure() {
    let ok = push_step(
        DataElement::BranchedRepo(branched("o", "r", true, false, None)),
        PushOutcome { error: None },
    );
    match ok {
        DataElement::BranchedRepo(b) => {
            assert!(b.committed);
            assert!(b.pushed);
            assert!(b.last_error.is_none());
        }
        _ => panic!("expected a branched record"),
    }

    let failed = push_step(
        DataElement::BranchedRepo(branched("o", "r", true, false, Some("stale"))),
        PushOutcome {
            error: Some("auth failed".to_string()),
        },
    );
    match failed {
        DataElement::BranchedRepo(b) => {
            assert!(b.committed, "a failed push must not reset the committed flag");
            assert!(!b.pushed);
            assert_eq!(b.last_error.as_deref(), Some("auth failed"));
        }
        _ => panic!("expected a branched record"),
    }
}

#[test]
fn test_open_pr_step_converts_or_records_error() {
    let ok = open_pr_step(
        DataElement::BranchedRepo(branched("o", "r", true, true, None)),
        PrOutcome::Opened {
            url: "https://github.com/o/r/pull/1".to_string(),
        },
    );
    match ok {
        DataElement::PRdRepo(p) => {
            assert_eq!(p.url, "https://github.com/o/r/pull/1");
            assert!(p.branched.committed);
            assert!(p.branched.pushed);
        }
        _ => panic!("expected a pull-requested record"),
    }

    let failed = open_pr_step(
        DataElement::BranchedRepo(branched("o", "r", true, true, None)),
        PrOutcome::Failed {
            error: "rate limited".to_string(),
        },
    );
    match failed {
        DataElement::BranchedRepo(b) => {
            assert!(b.committed);
            assert!(b.pushed, "a failed pull request must keep the pushed flag");
            assert_eq!(b.last_error.as_deref(), Some("rate limited"));
        }
        _ => panic!("expected a branched record"),
    }
}

#[test]
fn test_clone_pass_is_idempotent_on_clean_locals() {
    // A non-failed local is not clone-eligible: the pass copies it unchanged.
    let clean = DataElement::LocalRepo(local("o", "done", None));
    assert!(!is_eligible(Stage::Clone, &clean));

    let state = state_of(vec![
        clean.clone(),
        DataElement::RemoteRepo(defn("o", "fresh")),
    ]);
    let outcomes = vec![
        None,
        Some(StageOutcome::Clone(CloneOutcome {
            local_path: "o/fresh".to_string(),
            error: None,
        })),
    ];
    let (next, report) = run_stage(Stage::Clone, state, outcomes);
    assert_eq!(next.data.repos[0], clean);
    assert_eq!(
        next.data.repos[1],
        DataElement::LocalRepo(local("o", "fresh", None))
    );
    assert_eq!(report.attempted, 1);
    assert_eq!(report.progressed, 1);
    assert_eq!(report.failed, 0);
}

#[test]
fn test_partial_failure_counts_and_survivors() {
    // Three eligible items: two succeed, one fails. The pass reports 2 and 1
    // and the run goes on; every item stays in the batch.
    let state = state_of(vec![
        DataElement::RemoteRepo(defn("o", "a")),
        DataElement::RemoteRepo(defn("o", "b")),
        DataElement::RemoteRepo(defn("o", "c")),
    ]);
    let outcomes = vec![
        Some(StageOutcome::Clone(CloneOutcome {
            local_path: "o/a".to_string(),
            error: None,
        })),
        Some(StageOutcome::Clone(CloneOutcome {
            local_path: "o/b".to_string(),
            error: Some("timeout".to_string()),
        })),
        Some(StageOutcome::Clone(CloneOutcome {
            local_path: "o/c".to_string(),
            error: None,
        })),
    ];
    let (next, report) = run_stage(Stage::Clone, state, outcomes);
    assert_eq!(report.attempted, 3);
    assert_eq!(report.progressed, 2);
    assert_eq!(report.failed, 1);
    assert_eq!(next.data.repos.len(), 3);
    assert_eq!(survivor_count(Stage::Clone, &next), 2);

    // The failed item is kept, carrying its error, ready for a resume.
    assert_eq!(
        next.data.repos[1],
        DataElement::LocalRepo(local("o", "b", Some("timeout")))
    );
}

#[test]
fn test_all_failed_pass_has_zero_survivors() {
    let state = state_of(vec![DataElement::RemoteRepo(defn("o", "a"))]);
    let outcomes = vec![Some(StageOutcome::Clone(CloneOutcome {
        local_path: "o/a".to_string(),
        error: Some("refused".to_string()),
    }))];
    let (next, report) = run_stage(Stage::Clone, state, outcomes);
    assert_eq!(report.progressed, 0);
    assert_eq!(report.failed, 1);
    assert_eq!(survivor_count(Stage::Clone, &next), 0);
}

#[test]
fn test_noop_patch_is_kept_but_excluded() {
    // A patch that applies cleanly but changes nothing: recorded as a
    // success with zero changes, not branch-eligible, not a patch survivor,
    // and still present after the branch pass.
    let state = state_of(vec![DataElement::LocalRepo(local("o", "r", None))]);
    let outcomes = vec![Some(StageOutcome::Patch(PatchOutcome::Applied {
        output: "nothing to do".to_string(),
        changes: 0,
    }))];
    let (next, report) = run_stage(Stage::Patch, state, outcomes);
    assert_eq!(report.attempted, 1);
    assert_eq!(report.progressed, 0);
    let item = next.data.repos[0].clone();
    match &item {
        DataElement::PatchedRepo(p) => {
            assert!(p.success);
            assert_eq!(p.changes, 0);
        }
        _ => panic!("expected a patched record"),
    }
    assert!(!is_eligible(Stage::Branch, &item));
    assert!(!is_survivor(Stage::Patch, &item));

    let (after_branch, branch_report) = run_stage(Stage::Branch, next, vec![None]);
    assert_eq!(branch_report.attempted, 0);
    assert_eq!(after_branch.data.repos[0], item);
}

#[test]
fn test_commit_refuses_errored_branched() {
    // The commit precondition: a branched item with a live error is not
    // commit-eligible and passes through a commit pass unchanged; it is
    // branch-eligible instead.
    let errored = DataElement::BranchedRepo(branched("o", "r", false, false, Some("boom")));
    assert!(!is_eligible(Stage::Commit, &errored));
    assert!(is_eligible(Stage::Branch, &errored));

    let state = state_of(vec![errored.clone()]);
    let (next, report) = run_stage(Stage::Commit, state, vec![None]);
    assert_eq!(report.attempted, 0);
    assert_eq!(next.data.repos[0], errored);
}

#[test]
fn test_resume_touches_only_errored_items() {
    // Resume: one item carries a push error, the others are already past the
    // push stage. The push pass re-attempts exactly the errored one.
    let errored = DataElement::BranchedRepo(branched("o", "a", true, false, Some("auth")));
    let done = DataElement::BranchedRepo(branched("o", "b", true, true, None));
    assert!(is_eligible(Stage::Push, &errored));
    assert!(!is_eligible(Stage::Push, &done));

    let state = state_of(vec![errored, done.clone()]);
    let outcomes = vec![Some(StageOutcome::Push(PushOutcome { error: None })), None];
    let (next, report) = run_stage(Stage::Push, state, outcomes);
    assert_eq!(report.attempted, 1);
    assert_eq!(report.progressed, 1);
    match &next.data.repos[0] {
        DataElement::BranchedRepo(b) => {
            assert!(b.pushed);
            assert!(b.last_error.is_none());
        }
        _ => panic!("expected a branched record"),
    }
    assert_eq!(next.data.repos[1], done);
}

#[test]
fn test_create_all_pull_requests_pass() {
    let ready = DataElement::BranchedRepo(branched("o", "a", true, true, None));
    let behind = DataElement::BranchedRepo(branched("o", "b", true, false, None));
    let state = BaseStateDefn {
        data: BaseDataDefn {
            repos: vec![ready, behind.clone()],
        },
        pr_description: Some("desc".to_string()),
        pr_title: Some("title".to_string()),
    };
    let outcomes = vec![
        Some(StageOutcome::OpenPr(PrOutcome::Opened {
            url: "https://github.com/o/a/pull/7".to_string(),
        })),
        None,
    ];
    let (next, report) = create_all_pull_requests(state, outcomes);
    assert_eq!(report.attempted, 1);
    assert_eq!(report.progressed, 1);
    assert_eq!(next.pr_title.as_deref(), Some("title"));
    assert_eq!(next.pr_description.as_deref(), Some("desc"));
    match &next.data.repos[0] {
        DataElement::PRdRepo(p) => assert_eq!(p.url, "https://github.com/o/a/pull/7"),
        _ => panic!("expected a pull-requested record"),
    }
    assert_eq!(next.data.repos[1], behind);
    assert_eq!(survivor_count(Stage::OpenPr, &next), 1);
}

#[test]
fn test_survivor_counts_by_stage() {
    let state = state_of(vec![
        DataElement::RemoteRepo(defn("o", "a")),
        DataElement::LocalRepo(local("o", "b", None)),
        DataElement::LocalRepo(local("o", "c", Some("failed"))),
        DataElement::PatchedRepo(patched("o", "d", 0, true)),
        DataElement::PatchedRepo(patched("o", "e", 3, true)),
        DataElement::BranchedRepo(branched("o", "f", true, false, None)),
    ]);
    assert_eq!(survivor_count(Stage::Clone, &state), 4);
    assert_eq!(survivor_count(Stage::Patch, &state), 2);
    assert_eq!(survivor_count(Stage::Branch, &state), 1);
    assert_eq!(survivor_count(Stage::Commit, &state), 1);
    assert_eq!(survivor_count(Stage::Push, &state), 0);
    assert_eq!(survivor_count(Stage::OpenPr, &state), 0);
}
