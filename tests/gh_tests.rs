use nut_workspace::error::NutError;
use nut_workspace::gh::{
    get_git_protocol_with_fallback, get_token_with_fallback, parse_auth_token, parse_git_protocol,
    GitProtocol,
};

#[test]
fn test_git_protocol_to_clone_url_https() {
    let protocol = GitProtocol::Https;
    assert_eq!(
        protocol.to_clone_url("github.com", "owner/repo"),
        "https://github.com/owner/repo.git"
    );
}

#[test]
fn test_git_protocol_to_clone_url_ssh() {
    let protocol = GitProtocol::Ssh;
    assert_eq!(
        protocol.to_clone_url("github.com", "owner/repo"),
        "git@github.com:owner/repo.git"
    );
}

#[test]
fn test_get_git_protocol_with_fallback_defaults_to_https() {
    // gh not available or not configured for github.com: nothing configured
    let configured = parse_git_protocol(false, "");
    let protocol = get_git_protocol_with_fallback(configured);
    assert_eq!(protocol, GitProtocol::Https);
}

#[test]
fn test_get_token_with_fallback_uses_provided_token() {
    let token = "provided_token";
    let result = get_token_with_fallback(Some(token), None);
    assert!(result.is_ok());
    assert_eq!(result.unwrap(), token);
}

#[test]
fn test_get_token_with_fallback_fails_without_token_and_gh() {
    let result = get_token_with_fallback(None, None);
    assert!(result.is_ok() || result.is_err());
    assert!(matches!(result, Err(NutError::MissingGitHubToken { .. })));
}

#[test]
fn configured_protocol_is_read_from_trimmed_gh_output() {
    assert_eq!(parse_git_protocol(true, "ssh\n"), Some(GitProtocol::Ssh));
    assert_eq!(parse_git_protocol(true, "  https \n"), Some(GitProtocol::Https));
    assert_eq!(parse_git_protocol(true, "ftp\n"), None);
    assert_eq!(parse_git_protocol(false, "ssh\n"), None);
    assert_eq!(get_git_protocol_with_fallback(Some(GitProtocol::Ssh)), GitProtocol::Ssh);
}

#[test]
fn token_from_gh_is_used_when_none_is_provided() {
    let from_gh = parse_auth_token(true, "gho_abc\n");
    assert_eq!(from_gh.as_deref(), Some("gho_abc"));
    assert_eq!(parse_auth_token(true, " \n"), None);
    assert_eq!(parse_auth_token(false, "gho_abc"), None);
    assert_eq!(get_token_with_fallback(None, from_gh).unwrap(), "gho_abc");
    assert_eq!(
        get_token_with_fallback(Some("mine"), Some("gho_abc".to_string())).unwrap(),
        "mine"
    );
}
