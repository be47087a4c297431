use batchpatch::data::DataElement;
use batchpatch::list::{invalid_line_count, read_repo_list, ListError};

fn create_fixture(dest: &mut Vec<String>) {
    dest.push("my-org/first_repo1".to_string());
    dest.push("https://github.com/my-org/first_repo2".to_string());
    dest.push("your0rg/another-repo".to_string());
}

fn create_problematic_fixture(dest: &mut Vec<String>) {
    dest.push("my-org/first_repo1".to_string());
    dest.push("my-org/first_repo2".to_string());
    dest.push("rogue line here!".to_string());
    dest.push("your0rg/another-repo".to_string());
}

#[test]
fn test_read_repo_list_ok() {
    let mut lines: Vec<String> = Vec::new();
    create_fixture(&mut lines);

    let result = read_repo_list(&lines, true).expect("expected a successful load");
    match &result.data.repos[0] {
        DataElement::RemoteRepo(repo_defn) => {
            assert_eq!(repo_defn.name, "first_repo1");
            assert_eq!(repo_defn.owner, "my-org");
        }
        _ => panic!("first element was not a RemoteRepo"),
    }
    match &result.data.repos[1] {
        DataElement::RemoteRepo(repo_defn) => {
            assert_eq!(repo_defn.name, "first_repo2");
            assert_eq!(repo_defn.owner, "my-org");
        }
        _ => panic!("second element was not a RemoteRepo"),
    }
    match &result.data.repos[2] {
        DataElement::RemoteRepo(repo_defn) => {
            assert_eq!(repo_defn.name, "another-repo");
            assert_eq!(repo_defn.owner, "your0rg");
        }
        _ => panic!("third element was not a RemoteRepo"),
    }

    assert_eq!(result.data.repos.len(), 3);
}

#[test]
fn test_read_repo_list_ok_strict() {
    let mut lines: Vec<String> = Vec::new();
    create_fixture(&mut lines);

    let result = read_repo_list(&lines, false).expect("expected a successful load");
    match &result.data.repos[0] {
        DataElement::RemoteRepo(repo_defn) => {
            assert_eq!(repo_defn.name, "first_repo1");
            assert_eq!(repo_defn.owner, "my-org");
        }
        _ => panic!("first element was not a RemoteRepo"),
    }
    match &result.data.repos[1] {
        DataElement::RemoteRepo(repo_defn) => {
            assert_eq!(repo_defn.name, "first_repo2");
            assert_eq!(repo_defn.owner, "my-org");
        }
        _ => panic!("second element was not a RemoteRepo"),
    }
    match &result.data.repos[2] {
        DataElement::RemoteRepo(repo_defn) => {
            assert_eq!(repo_defn.name, "another-repo");
            assert_eq!(repo_defn.owner, "your0rg");
        }
        _ => panic!("third element was not a RemoteRepo"),
    }

    assert_eq!(result.data.repos.len(), 3);
}

#[test]
fn test_read_repo_list_probs() {
    let mut lines: Vec<String> = Vec::new();
    create_problematic_fixture(&mut lines);

    let result = read_repo_list(&lines, true).expect("expected a fault-tolerant load");
    match &result.data.repos[0] {
        DataElement::RemoteRepo(repo_defn) => {
            assert_eq!(repo_defn.name, "first_repo1");
            assert_eq!(repo_defn.owner, "my-org");
        }
        _ => panic!("first element was not a RemoteRepo"),
    }
    match &result.data.repos[1] {
        DataElement::RemoteRepo(repo_defn) => {
            assert_eq!(repo_defn.name, "first_repo2");
            assert_eq!(repo_defn.owner, "my-org");
        }
        _ => panic!("second element was not a RemoteRepo"),
    }
    match &result.data.repos[2] {
        DataElement::RemoteRepo(repo_defn) => {
            assert_eq!(repo_defn.name, "another-repo");
            assert_eq!(repo_defn.owner, "your0rg");
        }
        _ => panic!("third element was not a RemoteRepo"),
    }
    assert_eq!(result.data.repos.len(), 3);
}

#[test]
fn test_read_repo_list_probs_strict() {
    let mut lines: Vec<String> = Vec::new();
    create_problematic_fixture(&mut lines);

    let result = read_repo_list(&lines, false);

    assert!(result.is_err());
    assert_eq!(
        result.unwrap_err().message(),
        "Repository list was not in the right format"
    );
}

#[test]
fn test_fault_tolerant_skips_and_counts() {
    let lines: Vec<String> = vec![
        "a/b".to_string(),
        "not-a-valid-line".to_string(),
        "c/d".to_string(),
    ];

    let result = read_repo_list(&lines, true).expect("fault-tolerant load should succeed");
    assert_eq!(result.data.repos.len(), 2);
    match &result.data.repos[0] {
        DataElement::RemoteRepo(r) => {
            assert_eq!(r.owner, "a");
            assert_eq!(r.name, "b");
        }
        _ => panic!("first element was not a RemoteRepo"),
    }
    match &result.data.repos[1] {
        DataElement::RemoteRepo(r) => {
            assert_eq!(r.owner, "c");
            assert_eq!(r.name, "d");
        }
        _ => panic!("second element was not a RemoteRepo"),
    }
    assert_eq!(invalid_line_count(&lines), 1);

    let strict = read_repo_list(&lines, false);
    assert_eq!(strict.unwrap_err(), ListError::WrongFormat);
}

#[test]
fn test_empty_list_loads_empty_state() {
    let lines: Vec<String> = Vec::new();
    let result = read_repo_list(&lines, false).expect("an empty list is a valid strict load");
    assert_eq!(result.data.repos.len(), 0);
    assert!(result.pr_title.is_none());
    assert!(result.pr_description.is_none());
}

#[test]
fn test_invalid_line_message() {
    assert_eq!(
        ListError::InvalidLine.message(),
        "Line was not in a valid format"
    );
}
