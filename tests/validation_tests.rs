use nut_workspace::error::NutError;
use nut_workspace::validation::{parse_repository_name, validate_import_args};

#[test]
fn test_validate_import_args_both_provided() {
    let query = Some("test query".to_string());
    let repos = vec!["owner/repo".to_string()];
    assert!(validate_import_args(&query, &repos).is_err());
}

#[test]
fn test_validate_import_args_none_provided() {
    let query = None;
    let repos: Vec<String> = vec![];
    assert!(validate_import_args(&query, &repos).is_err());
}

#[test]
fn test_validate_import_args_query_only() {
    let query = Some("test query".to_string());
    let repos: Vec<String> = vec![];
    assert!(validate_import_args(&query, &repos).is_ok());
}

#[test]
fn test_validate_import_args_repos_only() {
    let query = None;
    let repos = vec!["owner/repo".to_string()];
    assert!(validate_import_args(&query, &repos).is_ok());
}

#[test]
fn test_parse_repository_name_valid() {
    let result = parse_repository_name("owner/repo");
    assert!(result.is_ok());
    let (owner, repo) = result.unwrap();
    assert_eq!(owner, "owner");
    assert_eq!(repo, "repo");
}

#[test]
fn test_parse_repository_name_invalid_no_slash() {
    let result = parse_repository_name("invalid");
    assert!(result.is_err());
}

#[test]
fn test_parse_repository_name_invalid_too_many_slashes() {
    let result = parse_repository_name("owner/repo/extra");
    assert!(result.is_err());
}

#[test]
fn import_argument_errors_are_told_apart() {
    let repos = vec!["a/b".to_string()];
    assert!(matches!(
        validate_import_args(&Some("q".to_string()), &repos),
        Err(NutError::QueryAndPositionalArgsConflict)
    ));
    assert!(matches!(
        validate_import_args(&None, &[]),
        Err(NutError::InvalidArgumentCombination)
    ));
}

#[test]
fn repository_name_edge_cases() {
    assert_eq!(parse_repository_name("/").unwrap(), ("", ""));
    assert_eq!(parse_repository_name("ö/ü").unwrap(), ("ö", "ü"));
    match parse_repository_name("a//b") {
        Err(NutError::InvalidRepositoryName { name }) => assert_eq!(name, "a//b"),
        other => panic!("unexpected {:?}", other),
    }
}
