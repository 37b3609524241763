//! Hosting protocol, clone URLs, and what the gh CLI reports.

use crate::error::{ErrorView, NutError};
use crate::text::{owned, trim, trimmed};
use vstd::prelude::*;
use vstd::string::*;

verus! {

/// Protocol used to reach a hosted repository.
#[derive(Debug, Clone, Copy, PartialEq, Eq, Structural)]
pub enum GitProtocol {
    Https,
    Ssh,
}

/// The clone URL of `full_name` on `host` under protocol `p`.
pub open spec fn clone_url(p: GitProtocol, host: Seq<char>, full_name: Seq<char>) -> Seq<char> {
    match p {
        GitProtocol::Https => "https://"@ + host + "/"@ + full_name + ".git"@,
        GitProtocol::Ssh => "git@"@ + host + ":"@ + full_name + ".git"@,
    }
}

/// The protocol a `gh config get git_protocol` reply names, if any.
pub open spec fn protocol_named(reply: Seq<char>) -> Option<GitProtocol> {
    if trimmed(reply) == "https"@ {
        Some(GitProtocol::Https)
    } else if trimmed(reply) == "ssh"@ {
        Some(GitProtocol::Ssh)
    } else {
        None
    }
}

/// The text of the error reported when no token can be found.
pub open spec fn missing_token_message() -> Seq<char> {
    "No GitHub token provided and gh CLI is not authenticated. Either provide --github-token or run 'gh auth login'"@
}

impl GitProtocol {
    /// The clone URL of repository `full_name` on `host`.
    pub fn to_clone_url(self, host: &str, full_name: &str) -> (r: String)
        ensures
            r@ == clone_url(self, host@, full_name@),
    {
        let mut s = match self {
            GitProtocol::Https => owned("https://"),
            GitProtocol::Ssh => owned("git@"),
        };
        s.append(host);
        match self {
            GitProtocol::Https => s.append("/"),
            GitProtocol::Ssh => s.append(":"),
        }
        s.append(full_name);
        s.append(".git");
        s
    }
}

/// Reads the reply of `gh config get git_protocol -h <host>`: `None` when gh
/// failed or names no known protocol.
pub fn parse_git_protocol(success: bool, stdout: &str) -> (r: Option<GitProtocol>)
    ensures
        r == (if success { protocol_named(stdout@) } else { None }),
{
    if !success {
        return None;
    }
    let t = trim(stdout);
    let https = owned("https");
    let ssh = owned("ssh");
    if t == https {
        Some(GitProtocol::Https)
    } else if t == ssh {
        Some(GitProtocol::Ssh)
    } else {
        None
    }
}

/// The protocol to clone with: the configured one, else HTTPS (gh's default).
pub fn get_git_protocol_with_fallback(configured: Option<GitProtocol>) -> (r: GitProtocol)
    ensures
        r == (match configured {
            Some(p) => p,
            None => GitProtocol::Https,
        }),
{
    match configured {
        Some(p) => p,
        None => GitProtocol::Https,
    }
}

/// Reads the reply of `gh auth token`: the trimmed token, or `None` when gh
/// failed or printed nothing.
pub fn parse_auth_token(success: bool, stdout: &str) -> (r: Option<String>)
    ensures
        !success ==> r is None,
        success && trimmed(stdout@).len() == 0 ==> r is None,
        success && trimmed(stdout@).len() > 0 ==> (r matches Some(t) && t@ == trimmed(stdout@)),
{
    if !success {
        return None;
    }
    let t = trim(stdout);
    if t.as_str().unicode_len() == 0 {
        None
    } else {
        Some(t)
    }
}

/// The token to authenticate with: the one provided, else the one gh holds
/// (`from_gh`, asked only when none was provided).
pub fn get_token_with_fallback(provided_token: Option<&str>, from_gh: Option<String>) -> (r: Result<String, NutError>)
    ensures
        provided_token matches Some(t) ==> (r matches Ok(s) && s@ == t@),
        provided_token is None && from_gh is Some ==> (r matches Ok(s) && s@ == from_gh->0@),
        provided_token is None && from_gh is None ==> (r matches Err(e)
            && e@ == ErrorView::MissingGitHubToken { message: missing_token_message() }),
{
    match provided_token {
        Some(t) => Ok(owned(t)),
        None => match from_gh {
            Some(s) => Ok(s),
            None => Err(NutError::MissingGitHubToken {
                message: owned("No GitHub token provided and gh CLI is not authenticated. Either provide --github-token or run 'gh auth login'"),
            }),
        },
    }
}

} // verus!
