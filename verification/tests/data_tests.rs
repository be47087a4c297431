use batchpatch::creds::{check_single_remote, fallback_credential, ssh_key_path, CredFallback};
use batchpatch::data::{CloneMode, RepoDefn};
use batchpatch::github::build_pr_request;
use batchpatch::patcher::{get_commit_msg, select_patch_source, ArgsError, PatchSource};
use batchpatch::pipeline::{
    after_pass, outcome_progressed_exec, BranchOutcome, PatchOutcome, RunDecision, Stage,
    StageOutcome,
};

fn defn(owner: &str, name: &str) -> RepoDefn {
    RepoDefn {
        owner: owner.to_string(),
        name: name.to_string(),
        main_branch_name: None,
    }
}

#[test]
fn test_clone_uris() {
    let d = defn("my-org", "tool");
    assert_eq!(d.clone_uri_ssh(), "git@github.com:my-org/tool");
    assert_eq!(d.clone_uri_https(), "https://github.com/my-org/tool");
    assert_eq!(d.clone_uri(CloneMode::Ssh), "git@github.com:my-org/tool");
    assert_eq!(d.clone_uri(CloneMode::Https), "https://github.com/my-org/tool");
}

#[test]
fn test_repo_defn_from_shorthand() {
    let d = RepoDefn::new("my-org/first_repo1").expect("shorthand should parse");
    assert_eq!(d.owner, "my-org");
    assert_eq!(d.name, "first_repo1");
    assert!(d.main_branch_name.is_none());
}

#[test]
fn test_repo_defn_from_url() {
    let d = RepoDefn::new("https://github.com/my-org/first_repo2").expect("URL should parse");
    assert_eq!(d.owner, "my-org");
    assert_eq!(d.name, "first_repo2");

    let d2 = RepoDefn::new("http://github.com/a/b").expect("plain http URL should parse");
    assert_eq!(d2.owner, "a");
    assert_eq!(d2.name, "b");
}

#[test]
fn test_repo_defn_split_at_last_slash() {
    // The shorthand splits at the last slash, so the owner may hold slashes.
    let d = RepoDefn::new("a/b/c").expect("multi-segment shorthand should parse");
    assert_eq!(d.owner, "a/b");
    assert_eq!(d.name, "c");

    // A URL whose tail has more than one slash falls back to the shorthand.
    let d2 = RepoDefn::new("https://github.com/a/b/c").expect("fallback should parse");
    assert_eq!(d2.owner, "https://github.com/a/b");
    assert_eq!(d2.name, "c");
}

#[test]
fn test_repo_defn_rejects_invalid_lines() {
    assert!(RepoDefn::new("rogue line here!").is_err());
    assert!(RepoDefn::new("not-a-valid-line").is_err());
    assert!(RepoDefn::new("/leading").is_err());
    assert!(RepoDefn::new("trailing/").is_err());
    assert_eq!(
        RepoDefn::new("").unwrap_err().message(),
        "Line was not in a valid format"
    );
}

#[test]
fn test_clone_mode_from_url() {
    assert_eq!(
        CloneMode::from_url("https://github.com/a/b"),
        Some(CloneMode::Https)
    );
    assert_eq!(
        CloneMode::from_url("http://example.com/x"),
        Some(CloneMode::Https)
    );
    assert_eq!(
        CloneMode::from_url("git@github.com:a/b"),
        Some(CloneMode::Ssh)
    );
    assert_eq!(CloneMode::from_url("ftp://server/x"), None);
    assert_eq!(CloneMode::from_url(""), None);
}

#[test]
fn test_clone_mode_from_flag() {
    assert_eq!(CloneMode::from_flag("https"), CloneMode::Https);
    assert_eq!(CloneMode::from_flag("HTTPS"), CloneMode::Https);
    assert_eq!(CloneMode::from_flag("Http"), CloneMode::Https);
    assert_eq!(CloneMode::from_flag("ssh"), CloneMode::Ssh);
    assert_eq!(CloneMode::from_flag("anything"), CloneMode::Ssh);
    assert_eq!(CloneMode::from_flag(""), CloneMode::Ssh);
}

#[test]
fn test_select_patch_source() {
    let file = select_patch_source(Some("fix.diff".to_string()), None);
    assert_eq!(file, Ok(PatchSource::DiffFile("fix.diff".to_string())));

    let script = select_patch_source(None, Some("run.sh".to_string()));
    assert_eq!(script, Ok(PatchSource::ScriptFile("run.sh".to_string())));

    let neither = select_patch_source(None, None);
    assert_eq!(neither, Err(ArgsError::IncorrectArguments));

    let both = select_patch_source(Some("fix.diff".to_string()), Some("run.sh".to_string()));
    assert_eq!(both.unwrap_err().message(), "Incorrect arguments");
}

#[test]
fn test_patch_source_label_and_command() {
    assert_eq!(
        PatchSource::DiffFile("fix.diff".to_string()).label(),
        "diff fix.diff"
    );
    assert_eq!(
        PatchSource::ScriptFile("run.sh".to_string()).label(),
        "script run.sh"
    );
    assert_eq!(
        PatchSource::patch_command("/tmp/fix.diff"),
        "patch -t --forward -p1 < /tmp/fix.diff"
    );
}

#[test]
fn test_get_commit_msg() {
    assert_eq!(
        get_commit_msg(&Some("custom".to_string()), &Some("f.diff".to_string()), &None),
        "custom"
    );
    assert_eq!(
        get_commit_msg(&None, &Some("f.diff".to_string()), &None),
        "Batchpatch applied the patch file f.diff"
    );
    assert_eq!(
        get_commit_msg(&None, &None, &Some("run.sh".to_string())),
        "Batchpatch applied the script run.sh"
    );
    assert_eq!(get_commit_msg(&None, &None, &None), "Batchpatch applied an operation");
}

#[test]
fn test_build_pr_request_defaults() {
    let branched = batchpatch::data::BranchedRepo {
        patched: batchpatch::data::PatchedRepo {
            repo: batchpatch::data::LocalRepo {
                defn: defn("my-org", "tool"),
                local_path: "my-org/tool".to_string(),
                last_error: None,
            },
            changes: 2,
            output: String::new(),
            success: true,
        },
        branch_name: "fixes".to_string(),
        committed: true,
        pushed: true,
        last_error: None,
    };
    let r = build_pr_request(&branched, &None, &None);
    assert_eq!(r.base, "main");
    assert_eq!(r.head, "fixes");
    assert_eq!(r.title, "(chore): Batchpatch operations");
    assert_eq!(
        r.body,
        "Batchpatch applied some operations, please see the commit list for details"
    );
    assert!(!r.draft);
    assert!(r.maintainer_can_modify);

    let mut named = branched.clone();
    named.patched.repo.defn.main_branch_name = Some("trunk".to_string());
    let r2 = build_pr_request(&named, &Some("custom title".to_string()), &Some("body".to_string()));
    assert_eq!(r2.base, "trunk");
    assert_eq!(r2.title, "custom title");
    assert_eq!(r2.body, "body");
}

#[test]
fn test_fallback_credential_order() {
    // SSH: the configured key path wins, then the environment, then home.
    let cfg = fallback_credential(
        &Some(CloneMode::Ssh),
        &Some("/keys/k1".to_string()),
        &None,
        &Some("/keys/k2".to_string()),
        "/home/me",
    );
    assert_eq!(
        cfg,
        CredFallback::SshKey {
            keypath: "/keys/k1".to_string()
        }
    );

    let env = fallback_credential(&Some(CloneMode::Ssh), &None, &None, &Some("/keys/k2".to_string()), "/home/me");
    assert_eq!(
        env,
        CredFallback::SshKey {
            keypath: "/keys/k2".to_string()
        }
    );

    let home = fallback_credential(&Some(CloneMode::Ssh), &None, &None, &None, "/home/me");
    assert_eq!(
        home,
        CredFallback::SshKey {
            keypath: "/home/me/.ssh/id_rsa".to_string()
        }
    );
    assert_eq!(ssh_key_path(&None, &None, "/home/me"), "/home/me/.ssh/id_rsa");

    let token = fallback_credential(
        &Some(CloneMode::Https),
        &None,
        &Some("SECRET-REDACTED".to_string()),
        &None,
        "/home/me",
    );
    assert_eq!(
        token,
        CredFallback::Token {
            token: "SECRET-REDACTED".to_string()
        }
    );

    let no_token = fallback_credential(&Some(CloneMode::Https), &None, &None, &None, "/home/me");
    match no_token {
        CredFallback::NoCredential { message } => {
            assert_eq!(message, "There is no access token configured for push :(");
        }
        _ => panic!("expected no credential"),
    }

    let unknown = fallback_credential(&None, &None, &None, &None, "/home/me");
    match unknown {
        CredFallback::NoCredential { message } => {
            assert_eq!(message, "The URL was not recognised");
        }
        _ => panic!("expected no credential"),
    }
}

#[test]
fn test_check_single_remote() {
    assert!(check_single_remote(1).is_ok());
    assert!(check_single_remote(0).is_err());
    assert_eq!(
        check_single_remote(2).unwrap_err().message(),
        "We currently only support the repo having 1 remote"
    );
}

#[test]
fn test_after_pass_decision() {
    assert_eq!(after_pass(Stage::Clone, 0), RunDecision::Abort);
    assert_eq!(after_pass(Stage::Clone, 2), RunDecision::Proceed(Stage::Patch));
    assert_eq!(after_pass(Stage::Push, 1), RunDecision::Proceed(Stage::OpenPr));
    assert_eq!(after_pass(Stage::OpenPr, 1), RunDecision::Done);
    assert_eq!(after_pass(Stage::OpenPr, 0), RunDecision::Abort);
}

#[test]
fn test_stage_order() {
    assert_eq!(Stage::first(), Stage::Clone);
    assert_eq!(Stage::Clone.next(), Some(Stage::Patch));
    assert_eq!(Stage::Patch.next(), Some(Stage::Branch));
    assert_eq!(Stage::Branch.next(), Some(Stage::Commit));
    assert_eq!(Stage::Commit.next(), Some(Stage::Push));
    assert_eq!(Stage::Push.next(), Some(Stage::OpenPr));
    assert_eq!(Stage::OpenPr.next(), None);
}

#[test]
fn test_outcome_progressed_patch_needs_changes() {
    let noop = StageOutcome::Patch(PatchOutcome::Applied {
        output: String::new(),
        changes: 0,
    });
    assert!(!outcome_progressed_exec(&noop));
    let real = StageOutcome::Patch(PatchOutcome::Applied {
        output: String::new(),
        changes: 3,
    });
    assert!(outcome_progressed_exec(&real));
    let branch_ok = StageOutcome::Branch(BranchOutcome {
        branch_name: "b".to_string(),
        error: None,
    });
    assert!(outcome_progressed_exec(&branch_ok));
}
