//! The credential provider: the user's persisted identity record and the
//! three-way dispatch from its authentication method to a transport
//! credential. The decision — which kind of credential, and which username
//! when the remote URL supplies none — is verified here; only the credential
//! constructors of the version-control layer are trusted.

use crate::repo::error_from_str;
use vstd::prelude::*;

verus! {

/// How the user authenticates against a remote.
pub enum AuthType {
    /// A plain username and password.
    Plain { user: String, pass: String },
    /// The local SSH agent answers for the user.
    SSHAgent,
    /// An unencrypted private key read from this path.
    SSHPath { path: String },
}

/// The user's persisted identity record: authorship for commits, a hosting
/// token, and the authentication method for remote calls.
pub struct Author {
    pub name: String,
    pub email: String,
    pub token: String,
    pub auth: AuthType,
}

/// The username handed to an SSH credential: the one the remote URL
/// supplies, or "git" when it supplies none.
pub fn auth_username<'a>(user_from_url: Option<&'a str>) -> (r: &'a str)
    ensures
        match user_from_url {
            Some(u) => r@ == u@,
            None => r@ == ("git")@,
        },
{
    match user_from_url {
        Some(u) => u,
        None => "git",
    }
}

/// Relies on `git2::Cred::userpass_plaintext`: a plain username/password
/// credential.
#[verifier::external_body]
pub(crate) fn cred_userpass(user: &str, pass: &str) -> Result<git2::Cred, git2::Error> {
    git2::Cred::userpass_plaintext(user, pass)
}

/// Relies on `git2::Cred::ssh_key_from_agent`: asks the local SSH agent for
/// the key matching the username.
#[verifier::external_body]
pub(crate) fn cred_ssh_agent(user: &str) -> Result<git2::Cred, git2::Error> {
    git2::Cred::ssh_key_from_agent(user)
}

/// Relies on `git2::Cred::ssh_key`: reads an unencrypted private key from
/// the given path.
#[verifier::external_body]
pub(crate) fn cred_ssh_key_path(user: &str, path: &str) -> Result<git2::Cred, git2::Error> {
    git2::Cred::ssh_key(user, None, std::path::Path::new(path), None)
}

/// Resolve a transport credential from the identity record, if one is
/// available. With no record the transport's request fails as an
/// authentication error — never a crash. With one, the method dispatches
/// three ways: plain user/password from the record, the SSH agent, or a key
/// file, the SSH forms under the URL-supplied username or the default.
pub fn resolve_credential(author: Option<&Author>, user_from_url: Option<&str>) -> (r: Result<
    git2::Cred,
    git2::Error,
>)
    ensures
        author is None ==> r is Err,
{
    match author {
        None => Err(error_from_str("Config file not found")),
        Some(a) => match &a.auth {
            AuthType::Plain { user, pass } => cred_userpass(user.as_str(), pass.as_str()),
            AuthType::SSHAgent => cred_ssh_agent(auth_username(user_from_url)),
            AuthType::SSHPath { path } => cred_ssh_key_path(
                auth_username(user_from_url),
                path.as_str(),
            ),
        },
    }
}

} // verus!
