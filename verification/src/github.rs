//! The decisions of the repository-hosting client: which endpoint each
//! operation addresses, how the token is presented, and what a response
//! means. The HTTP transport itself is an external collaborator and stays
//! outside this crate; it hands back a success flag and, on failure, the
//! API's own message.

use crate::auth::Author;
use crate::error::MyError;
use vstd::prelude::*;
use vstd::string::*;

verus! {

/// Something that can present a hosting access token.
pub trait AccessToken {
    fn get(&self) -> &str;
}

impl AccessToken for Author {
    fn get(&self) -> &str {
        self.token.as_str()
    }
}

/// The error body the hosting API returns.
pub struct GithubApiError {
    pub documentation_url: String,
    pub message: String,
}

/// A request to create a repository under the user's account.
pub struct CreateRepoRequest {
    pub name: String,
    pub description: Option<String>,
}

/// A request to delete the repository `owner/name`.
pub struct DeleteRepoRequest {
    pub name: String,
    pub owner: String,
}

/// A request to fork the repository `owner/name`.
pub struct ForkRepoRequest {
    pub name: String,
    pub owner: String,
}

/// The endpoint for creating a repository for the authenticated user.
pub fn create_repo_url() -> (r: String)
    ensures
        r@ == ("https://api.github.com/user/repos")@,
{
    String::from_str("https://api.github.com/user/repos")
}

/// The endpoint of the repository `owner/name`.
pub fn repo_url(owner: &str, name: &str) -> (r: String)
    ensures
        r@ == ("https://api.github.com/repos/")@ + owner@ + ("/")@ + name@,
{
    let mut s = String::from_str("https://api.github.com/repos/");
    s.append(owner);
    s.append("/");
    s.append(name);
    s
}

/// The endpoint forking the repository `owner/repo`.
pub fn fork_url(owner: &str, repo: &str) -> (r: String)
    ensures
        r@ == ("https://api.github.com/repos/")@ + owner@ + ("/")@ + repo@ + ("/forks")@,
{
    let mut s = String::from_str("https://api.github.com/repos/");
    s.append(owner);
    s.append("/");
    s.append(repo);
    s.append("/forks");
    s
}

/// The authorization header value presenting a token.
pub fn token_header(token: &str) -> (r: String)
    ensures
        r@ == ("token ")@ + token@,
{
    let mut s = String::from_str("token ");
    s.append(token);
    s
}

/// What a hosting response means for the caller: a success status is
/// success, and anything else surfaces the API's own message, never
/// swallowed.
pub fn interpret_response(success: bool, error_message: &str) -> (r: Result<(), MyError>)
    ensures
        success <==> r is Ok,
        !success ==> (r matches Err(e) && e matches MyError::Vcs(m) && m@ == error_message@),
{
    if success {
        Ok(())
    } else {
        Err(MyError::Vcs(error_message.to_owned()))
    }
}

} // verus!
