use batchpatch::gitconfig::{GitConfig, GitConfigParserState};

#[test]
fn test_config_parser() {
    let mut parser = GitConfigParserState::new();
    let fixture_data = "[user]
    name = Rob Robertson
    email = rr39@mymail.com
[github]
    user = my_account_name
";
    for line in fixture_data.split("\n") {
        parser.line(line);
    }
    parser.finish();

    println!("{:?}", &parser);

    let result = GitConfig::from(&parser);

    assert!(result.is_ok());
    let config = result.unwrap();
    assert!(config.user.is_some());
    let user = config.user.unwrap();
    assert!(user.name == "Rob Robertson");
    assert!(user.email == "rr39@mymail.com");
}

#[test]
fn test_config_with_signing_key() {
    let lines: Vec<String> = vec![
        "[user]".to_string(),
        "    name = Ada".to_string(),
        "    email = ada@example.com".to_string(),
        "    signingKey = ABCDEF".to_string(),
    ];
    let config = GitConfig::new(&lines).unwrap();
    let user = config.user.expect("a complete user section");
    assert_eq!(user.name, "Ada");
    assert_eq!(user.email, "ada@example.com");
    assert_eq!(user.signing_key.as_deref(), Some("ABCDEF"));
}

#[test]
fn test_config_without_user_section() {
    let lines: Vec<String> = vec!["[core]".to_string(), "    bare = false".to_string()];
    let config = GitConfig::new(&lines).unwrap();
    assert!(config.user.is_none());
}

#[test]
fn test_config_incomplete_user_section() {
    // A user section without an email yields no identity.
    let lines: Vec<String> = vec!["[user]".to_string(), "    name = Ada".to_string()];
    let config = GitConfig::new(&lines).unwrap();
    assert!(config.user.is_none());
}

#[test]
fn test_config_later_value_wins() {
    let lines: Vec<String> = vec![
        "[user]".to_string(),
        "    name = First".to_string(),
        "    name = Second".to_string(),
        "    email = a@b.c".to_string(),
    ];
    let config = GitConfig::new(&lines).unwrap();
    assert_eq!(config.user.unwrap().name, "Second");
}

#[test]
fn test_config_ignores_noise_lines() {
    let lines: Vec<String> = vec![
        "; a comment".to_string(),
        "".to_string(),
        "[user]".to_string(),
        "    name = Ada".to_string(),
        "  not a key value pair".to_string(),
        "    email = ada@example.com".to_string(),
    ];
    let config = GitConfig::new(&lines).unwrap();
    let user = config.user.expect("noise lines must not break the section");
    assert_eq!(user.name, "Ada");
    assert_eq!(user.email, "ada@example.com");
}
