use batchpatch::data::{
    BaseDataDefn, BaseStateDefn, BranchedRepo, DataElement, LocalRepo, PRdRepo, PatchedRepo,
    RepoDefn,
};
use batchpatch::json::{json_to_state, state_to_json, Json, JsonKey};

fn sample_state() -> BaseStateDefn {
    let defn = RepoDefn {
        owner: "my-org".to_string(),
        name: "tool".to_string(),
        main_branch_name: Some("trunk".to_string()),
    };
    let local = LocalRepo {
        defn: defn.clone(),
        local_path: "my-org/tool".to_string(),
        last_error: None,
    };
    let patched = PatchedRepo {
        repo: local.clone(),
        changes: 3,
        output: "patched\n".to_string(),
        success: true,
    };
    let branched = BranchedRepo {
        patched: patched.clone(),
        branch_name: "fixes".to_string(),
        committed: true,
        pushed: false,
        last_error: Some("push failed".to_string()),
    };
    let prd = PRdRepo {
        branched: BranchedRepo {
            pushed: true,
            last_error: None,
            ..branched.clone()
        },
        url: "https://github.com/my-org/tool/pull/9".to_string(),
    };
    BaseStateDefn {
        data: BaseDataDefn {
            repos: vec![
                DataElement::RemoteRepo(RepoDefn {
                    owner: "a".to_string(),
                    name: "b".to_string(),
                    main_branch_name: None,
                }),
                DataElement::LocalRepo(local),
                DataElement::LocalRepo(LocalRepo {
                    defn: RepoDefn {
                        owner: "a".to_string(),
                        name: "c".to_string(),
                        main_branch_name: None,
                    },
                    local_path: "a/c".to_string(),
                    last_error: Some("no such host".to_string()),
                }),
                DataElement::PatchedRepo(patched),
                DataElement::BranchedRepo(branched),
                DataElement::PRdRepo(prd),
            ],
        },
        pr_description: Some("a description".to_string()),
        pr_title: None,
    }
}

#[test]
fn test_state_round_trip() {
    // One record on every rung of the ladder: the checkpoint document
    // decodes back to exactly the state, items in order.
    let state = sample_state();
    let again = json_to_state(state_to_json(state.clone())).expect("a fresh document decodes");
    assert_eq!(again, state);
}

#[test]
fn test_empty_state_round_trip() {
    let state = BaseStateDefn {
        data: BaseDataDefn { repos: Vec::new() },
        pr_description: None,
        pr_title: None,
    };
    let again = json_to_state(state_to_json(state.clone())).expect("an empty document decodes");
    assert_eq!(again, state);
    assert_eq!(again.data.repos.len(), 0);
}

#[test]
fn test_decode_rejects_wrong_shapes() {
    assert!(json_to_state(Json::Null).is_none());
    assert!(json_to_state(Json::Str("{}".to_string())).is_none());
    // An object without the repository collection is rejected.
    assert!(json_to_state(Json::Obj(vec![(JsonKey::PrTitle, Json::Null)])).is_none());
    // A collection holding a malformed record is rejected as a whole.
    let bad = Json::Obj(vec![
        (
            JsonKey::Data,
            Json::Obj(vec![(JsonKey::Repos, Json::Arr(vec![Json::Bool(true)]))]),
        ),
        (JsonKey::PrTitle, Json::Null),
        (JsonKey::PrDescription, Json::Null),
    ]);
    assert!(json_to_state(bad).is_none());
}

#[test]
fn test_decode_accepts_missing_optional_text() {
    // The title and description may be absent entirely, not only null.
    let doc = Json::Obj(vec![(
        JsonKey::Data,
        Json::Obj(vec![(JsonKey::Repos, Json::Arr(Vec::new()))]),
    )]);
    let state = json_to_state(doc).expect("missing optional fields decode as none");
    assert!(state.pr_title.is_none());
    assert!(state.pr_description.is_none());
}
