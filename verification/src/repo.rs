//! The trusted surface over the version-control layer (the `git2` crate).
//! Everything here is a declaration of an outside type or a thin wrapper
//! around one `git2` call; the wrappers convert arguments and results and do
//! nothing else. What a call returns depends on the repository on disk, so
//! the contracts state only what holds of every outcome; the decisions taken
//! on those outcomes live in the verified modules `vcs` and `sync`.

use crate::auth::resolve_credential;
use crate::auth::Author;
use vstd::prelude::*;

verus! {

#[verifier::external_type_specification]
#[verifier::external_body]
pub struct ExRepository(git2::Repository);

#[verifier::external_type_specification]
#[verifier::external_body]
pub struct ExError(git2::Error);

#[verifier::external_type_specification]
#[verifier::external_body]
pub struct ExOid(git2::Oid);

#[verifier::external_type_specification]
#[verifier::external_body]
pub struct ExIndex(git2::Index);

#[verifier::external_type_specification]
#[verifier::external_body]
pub struct ExSignature<'a>(git2::Signature<'a>);

#[verifier::external_type_specification]
#[verifier::external_body]
pub struct ExTree<'repo>(git2::Tree<'repo>);

#[verifier::external_type_specification]
#[verifier::external_body]
pub struct ExCommit<'repo>(git2::Commit<'repo>);

#[verifier::external_type_specification]
#[verifier::external_body]
pub struct ExReference<'repo>(git2::Reference<'repo>);

#[verifier::external_type_specification]
#[verifier::external_body]
pub struct ExBranch<'repo>(git2::Branch<'repo>);

#[verifier::external_type_specification]
#[verifier::external_body]
pub struct ExBranches<'repo>(git2::Branches<'repo>);

#[verifier::external_type_specification]
#[verifier::external_body]
pub struct ExRemote<'repo>(git2::Remote<'repo>);

#[verifier::external_type_specification]
#[verifier::external_body]
pub struct ExRebase<'repo>(git2::Rebase<'repo>);

#[verifier::external_type_specification]
#[verifier::external_body]
pub struct ExAnnotatedCommit<'repo>(git2::AnnotatedCommit<'repo>);

#[verifier::external_type_specification]
#[verifier::external_body]
pub struct ExRebaseOperation<'rebase>(git2::RebaseOperation<'rebase>);

#[verifier::external_type_specification]
#[verifier::external_body]
pub struct ExBranchType(git2::BranchType);

#[verifier::external_type_specification]
#[verifier::external_body]
pub struct ExRevwalk<'repo>(git2::Revwalk<'repo>);

#[verifier::external_type_specification]
#[verifier::external_body]
pub struct ExCred(git2::Cred);

/// Relies on `git2::Repository::init`: creates or reopens a repository at
/// `path` and returns the handle, or the layer's error.
#[verifier::external_body]
pub(crate) fn repo_init(path: &str) -> Result<git2::Repository, git2::Error> {
    git2::Repository::init(path)
}

/// Relies on `git2::Repository::open`: attaches to the repository at `path`;
/// it fails when the path lacks repository metadata.
#[verifier::external_body]
pub(crate) fn repo_open(path: &str) -> Result<git2::Repository, git2::Error> {
    git2::Repository::open(path)
}

/// Relies on `git2::Error::message`: the layer's own description, preserved
/// for the caller.
#[verifier::external_body]
pub(crate) fn error_message(e: &git2::Error) -> String {
    e.message().to_string()
}

/// Relies on `git2::Error::code`: whether the failure is the unmerged-index
/// condition that a conflicted rebase step leaves behind.
#[verifier::external_body]
pub(crate) fn error_is_conflict(e: &git2::Error) -> bool {
    match e.code() {
        git2::ErrorCode::Unmerged => true,
        git2::ErrorCode::MergeConflict => true,
        git2::ErrorCode::Conflict => true,
        _ => false,
    }
}

/// Relies on `git2::Error::from_str`: an error of the layer carrying the
/// given message.
#[verifier::external_body]
pub(crate) fn error_from_str(s: &str) -> git2::Error {
    git2::Error::from_str(s)
}

/// Relies on `git2::Repository::index`: the repository's index.
#[verifier::external_body]
pub(crate) fn repo_index(repo: &git2::Repository) -> Result<git2::Index, git2::Error> {
    repo.index()
}

/// Relies on `git2::Index::add_all` with the all-matching pathspec: stages
/// every working-tree path into the index.
#[verifier::external_body]
pub(crate) fn index_add_all(index: &mut git2::Index) -> Result<(), git2::Error> {
    index.add_all(["*"].iter(), git2::IndexAddOption::DEFAULT, None)
}

/// Relies on `git2::Index::write`: writes the index back to disk.
#[verifier::external_body]
pub(crate) fn index_write(index: &mut git2::Index) -> Result<(), git2::Error> {
    index.write()
}

/// Relies on `git2::Index::write_tree`: writes the staged state as a tree
/// snapshot and returns its id.
#[verifier::external_body]
pub(crate) fn index_write_tree(index: &mut git2::Index) -> Result<git2::Oid, git2::Error> {
    index.write_tree()
}

/// Relies on `git2::Repository::find_tree`.
#[verifier::external_body]
pub(crate) fn repo_find_tree<'r>(repo: &'r git2::Repository, oid: &git2::Oid) -> Result<
    git2::Tree<'r>,
    git2::Error,
> {
    repo.find_tree(*oid)
}

/// Relies on `git2::Repository::find_commit`.
#[verifier::external_body]
pub(crate) fn repo_find_commit<'r>(repo: &'r git2::Repository, oid: &git2::Oid) -> Result<
    git2::Commit<'r>,
    git2::Error,
> {
    repo.find_commit(*oid)
}

/// Relies on `git2::Signature::now`: a signature for this name and address
/// stamped with the current time (so no two calls need agree).
#[verifier::external_body]
pub(crate) fn signature_now(name: &str, email: &str) -> Result<
    git2::Signature<'static>,
    git2::Error,
> {
    git2::Signature::now(name, email)
}

/// Relies on `git2::Repository::head`: the reference HEAD points at.
#[verifier::external_body]
pub(crate) fn repo_head<'r>(repo: &'r git2::Repository) -> Result<
    git2::Reference<'r>,
    git2::Error,
> {
    repo.head()
}

/// Relies on `git2::Reference::target`: the id the reference points at, if
/// it is direct.
#[verifier::external_body]
pub(crate) fn reference_target(r: &git2::Reference<'_>) -> Option<git2::Oid> {
    r.target()
}

/// Relies on `git2::Reference::resolve`: follows symbolic references to a
/// direct one.
#[verifier::external_body]
pub(crate) fn reference_resolve<'r>(r: &git2::Reference<'r>) -> Result<
    git2::Reference<'r>,
    git2::Error,
> {
    r.resolve()
}

/// Relies on `git2::Repository::commit` on `HEAD`: writes a commit with the
/// given author-and-committer signature, message, tree, and the given parent
/// (none for a root commit), and returns the new commit's id.
#[verifier::external_body]
pub(crate) fn repo_commit_head(
    repo: &git2::Repository,
    sig: &git2::Signature<'_>,
    message: &str,
    tree: &git2::Tree<'_>,
    parent: Option<&git2::Commit<'_>>,
) -> Result<git2::Oid, git2::Error> {
    match parent {
        Some(p) => repo.commit(Some("HEAD"), sig, sig, message, tree, &[p]),
        None => repo.commit(Some("HEAD"), sig, sig, message, tree, &[]),
    }
}

/// Relies on `git2::Repository::branch` with force: points a branch of this
/// name at the given commit.
#[verifier::external_body]
pub(crate) fn repo_branch_create<'r>(
    repo: &'r git2::Repository,
    name: &str,
    target: &git2::Commit<'_>,
) -> Result<git2::Branch<'r>, git2::Error> {
    repo.branch(name, target, true)
}

/// Relies on `git2::Repository::find_branch` for a local branch.
#[verifier::external_body]
pub(crate) fn repo_find_branch_local<'r>(repo: &'r git2::Repository, name: &str) -> Result<
    git2::Branch<'r>,
    git2::Error,
> {
    repo.find_branch(name, git2::BranchType::Local)
}

/// Relies on `git2::Repository::set_head`: repoints HEAD at the named
/// reference without touching the working tree.
#[verifier::external_body]
pub(crate) fn repo_set_head(repo: &git2::Repository, refname: &str) -> Result<(), git2::Error> {
    repo.set_head(refname)
}

/// Relies on `git2::Repository::checkout_head`, forced and keeping "ours":
/// overwrites the working directory with HEAD's snapshot, discarding
/// uncommitted edits on overwritten paths.
#[verifier::external_body]
pub(crate) fn repo_checkout_head_force(repo: &git2::Repository) -> Result<(), git2::Error> {
    let mut builder = git2::build::CheckoutBuilder::new();
    builder.force().use_ours(true);
    repo.checkout_head(Some(&mut builder))
}

/// Relies on `git2::Repository::checkout_tree`, forced and keeping "ours":
/// overwrites the working directory with the given tree's snapshot without
/// moving any branch.
#[verifier::external_body]
pub(crate) fn repo_checkout_tree_force(
    repo: &git2::Repository,
    tree: &git2::Tree<'_>,
) -> Result<(), git2::Error> {
    let mut builder = git2::build::CheckoutBuilder::new();
    builder.force().use_ours(true);
    repo.checkout_tree(tree.as_object(), Some(&mut builder))
}

/// Relies on `git2::Commit::tree`: the tree snapshot of a commit.
#[verifier::external_body]
pub(crate) fn commit_tree<'r>(c: &git2::Commit<'r>) -> Result<git2::Tree<'r>, git2::Error> {
    c.tree()
}

/// Relies on `git2::Commit::message`: the commit's message, when it is
/// valid UTF-8.
#[verifier::external_body]
pub(crate) fn commit_message(c: &git2::Commit<'_>) -> Result<String, git2::Error> {
    match c.message() {
        Ok(m) => Ok(m.to_string()),
        Err(e) => Err(e),
    }
}

/// Relies on `git2::Commit::author` and `git2::Signature::to_owned`: the
/// author signature of a commit, detached from the commit's lifetime.
#[verifier::external_body]
pub(crate) fn commit_author_owned(c: &git2::Commit<'_>) -> git2::Signature<'static> {
    c.author().to_owned()
}

/// Relies on `git2::Signature::name`: the name on a signature, when it is
/// valid UTF-8.
#[verifier::external_body]
pub(crate) fn signature_name(s: &git2::Signature<'_>) -> Result<String, git2::Error> {
    match s.name() {
        Ok(n) => Ok(n.to_string()),
        Err(e) => Err(e),
    }
}

/// Relies on `git2::Commit::time` with its `seconds` and `offset_minutes`
/// accessors: when the commit was made, as seconds since the epoch and the
/// timezone offset in minutes.
#[verifier::external_body]
pub(crate) fn commit_time_parts(c: &git2::Commit<'_>) -> (i64, i32) {
    let t = c.time();
    (t.seconds(), t.offset_minutes())
}

/// Relies on `git2::Oid`'s display form: the full lowercase hex of the id,
/// forty digits.
#[verifier::external_body]
pub(crate) fn oid_hex(oid: &git2::Oid) -> (r: String)
    ensures
        r@.len() == 40,
{
    oid.to_string()
}

/// Relies on `git2::Oid::from_str`: parses a hex object id.
#[verifier::external_body]
pub(crate) fn oid_parse(s: &str) -> Result<git2::Oid, git2::Error> {
    git2::Oid::from_str(s)
}

/// Relies on `git2::Branch::name`: the branch's name, `None` when it is not
/// valid UTF-8.
#[verifier::external_body]
pub(crate) fn branch_name_opt(b: &git2::Branch<'_>) -> Result<Option<String>, git2::Error> {
    match b.name() {
        Ok(Some(n)) => Ok(Some(n.to_string())),
        Ok(None) => Ok(None),
        Err(e) => Err(e),
    }
}

/// Relies on `git2::Branch::is_head`: whether HEAD points at this branch.
#[verifier::external_body]
pub(crate) fn branch_is_head(b: &git2::Branch<'_>) -> bool {
    b.is_head()
}

/// Relies on `git2::Branch::wrap`: views a reference as a branch.
#[verifier::external_body]
pub(crate) fn branch_wrap<'r>(r: git2::Reference<'r>) -> git2::Branch<'r> {
    git2::Branch::wrap(r)
}

/// Relies on `git2::Branch::get`: the reference under a branch.
#[verifier::external_body]
pub(crate) fn branch_reference<'a, 'r>(b: &'a git2::Branch<'r>) -> &'a git2::Reference<'r> {
    b.get()
}

/// Relies on `git2::Repository::branches` over local branches: an iterator
/// of them.
#[verifier::external_body]
pub(crate) fn repo_branches_local<'r>(repo: &'r git2::Repository) -> Result<
    git2::Branches<'r>,
    git2::Error,
> {
    repo.branches(Some(git2::BranchType::Local))
}

/// Relies on the iterator of `git2::Branches`: the next branch, its kind
/// dropped.
#[verifier::external_body]
pub(crate) fn branches_next<'r>(b: &mut git2::Branches<'r>) -> Option<
    Result<git2::Branch<'r>, git2::Error>,
> {
    match b.next() {
        Some(Ok((branch, _))) => Some(Ok(branch)),
        Some(Err(e)) => Some(Err(e)),
        None => None,
    }
}

/// Relies on `git2::Repository::remote`: registers a remote under this name
/// and URL.
#[verifier::external_body]
pub(crate) fn repo_remote_add<'r>(repo: &'r git2::Repository, name: &str, url: &str) -> Result<
    git2::Remote<'r>,
    git2::Error,
> {
    repo.remote(name, url)
}

/// Relies on `git2::Repository::find_remote`.
#[verifier::external_body]
pub(crate) fn repo_find_remote<'r>(repo: &'r git2::Repository, name: &str) -> Result<
    git2::Remote<'r>,
    git2::Error,
> {
    repo.find_remote(name)
}

/// Relies on `git2::Repository::remotes`: the configured remote names, one
/// for one, `None` standing for a name that is not valid UTF-8.
#[verifier::external_body]
pub(crate) fn repo_remote_names(repo: &git2::Repository) -> Result<
    Vec<Option<String>>,
    git2::Error,
> {
    let names = repo.remotes()?;
    let mut out: Vec<Option<String>> = Vec::new();
    for item in names.iter() {
        out.push(item?.map(|s| s.to_string()));
    }
    Ok(out)
}

/// Relies on `git2::Remote::name`: the remote's configured name, `None`
/// when it is unnamed or not valid UTF-8.
#[verifier::external_body]
pub(crate) fn remote_name_opt(r: &git2::Remote<'_>) -> Option<String> {
    match r.name() {
        Ok(Some(n)) => Some(n.to_string()),
        Ok(None) => None,
        Err(_) => None,
    }
}

/// Relies on `git2::Remote::fetch` with one refspec and default options.
#[verifier::external_body]
pub(crate) fn remote_fetch_one(r: &mut git2::Remote<'_>, refspec: &str) -> Result<
    (),
    git2::Error,
> {
    r.fetch(&[refspec], None, None)
}

/// Relies on `git2::Remote::fetch` with no refspec: fetches the remote's
/// configured default refspecs, the whole of it.
#[verifier::external_body]
pub(crate) fn remote_fetch_all(r: &mut git2::Remote<'_>) -> Result<(), git2::Error> {
    let refspecs: &[&str] = &[];
    r.fetch(refspecs, None, None)
}

/// Relies on `git2::Remote::push` with the given refspecs, authenticating
/// through `resolve_credential` over the given identity record.
#[verifier::external_body]
pub(crate) fn remote_push_auth(
    r: &mut git2::Remote<'_>,
    refspecs: &Vec<String>,
    author: Option<&Author>,
) -> Result<(), git2::Error> {
    let mut callbacks = git2::RemoteCallbacks::new();
    callbacks.credentials(|_user, user_from_url, _kind| {
        resolve_credential(author, user_from_url)
    });
    let mut opts = git2::PushOptions::new();
    opts.remote_callbacks(callbacks);
    let specs: Vec<&str> = refspecs.iter().map(String::as_str).collect();
    r.push(specs.as_slice(), Some(&mut opts))
}

/// Relies on `git2::build::RepoBuilder::clone`, authenticating through
/// `resolve_credential` over the given identity record.
#[verifier::external_body]
pub(crate) fn repo_clone_auth(url: &str, path: &str, author: Option<&Author>) -> Result<
    git2::Repository,
    git2::Error,
> {
    let mut callbacks = git2::RemoteCallbacks::new();
    callbacks.credentials(|_user, user_from_url, _kind| {
        resolve_credential(author, user_from_url)
    });
    let mut opts = git2::FetchOptions::new();
    opts.remote_callbacks(callbacks);
    git2::build::RepoBuilder::new().fetch_options(opts).clone(url, std::path::Path::new(path))
}

/// Relies on `git2::Repository::revwalk`: a walk over history.
#[verifier::external_body]
pub(crate) fn repo_revwalk<'r>(repo: &'r git2::Repository) -> Result<
    git2::Revwalk<'r>,
    git2::Error,
> {
    repo.revwalk()
}

/// Relies on `git2::Revwalk::push_head`: starts the walk at HEAD.
#[verifier::external_body]
pub(crate) fn revwalk_push_head(w: &mut git2::Revwalk<'_>) -> Result<(), git2::Error> {
    w.push_head()
}

/// Relies on the iterator of `git2::Revwalk`: the next commit id of the
/// walk, in the walk's topological order, newest first.
#[verifier::external_body]
pub(crate) fn revwalk_next(w: &mut git2::Revwalk<'_>) -> Option<Result<git2::Oid, git2::Error>> {
    w.next()
}

/// Relies on `git2::Repository::find_reference`.
#[verifier::external_body]
pub(crate) fn repo_find_reference<'r>(repo: &'r git2::Repository, name: &str) -> Result<
    git2::Reference<'r>,
    git2::Error,
> {
    repo.find_reference(name)
}

/// Relies on `git2::Repository::reference_to_annotated_commit`.
#[verifier::external_body]
pub(crate) fn reference_annotated<'r>(
    repo: &'r git2::Repository,
    r: &git2::Reference<'r>,
) -> Result<git2::AnnotatedCommit<'r>, git2::Error> {
    repo.reference_to_annotated_commit(r)
}

/// Relies on `git2::Repository::rebase`: begins rebasing `branch` onto
/// `upstream`, recording the operations in repository-durable state.
#[verifier::external_body]
pub(crate) fn rebase_begin<'r>(
    repo: &'r git2::Repository,
    branch: &git2::AnnotatedCommit<'r>,
    upstream: &git2::AnnotatedCommit<'r>,
) -> Result<git2::Rebase<'r>, git2::Error> {
    repo.rebase(Some(branch), Some(upstream), None, None)
}

/// Relies on `git2::Repository::open_rebase`: reattaches to the rebase the
/// repository's own on-disk state records; it fails when none is in
/// progress.
#[verifier::external_body]
pub(crate) fn rebase_open<'r>(repo: &'r git2::Repository) -> Result<git2::Rebase<'r>, git2::Error> {
    repo.open_rebase(None)
}

/// Relies on the iterator of `git2::Rebase`: applies the next operation to
/// the working tree and returns the id of the commit it replays.
#[verifier::external_body]
pub(crate) fn rebase_next_id(rb: &mut git2::Rebase<'_>) -> Option<Result<git2::Oid, git2::Error>> {
    match rb.next() {
        Some(Ok(op)) => Some(Ok(op.id())),
        Some(Err(e)) => Some(Err(e)),
        None => None,
    }
}

/// Relies on `git2::Rebase::commit`: commits the current step under the
/// given author (as committer too) and message; it fails while the index
/// still holds unresolved conflicts.
#[verifier::external_body]
pub(crate) fn rebase_commit_step(
    rb: &mut git2::Rebase<'_>,
    author: &git2::Signature<'_>,
    message: &str,
) -> Result<git2::Oid, git2::Error> {
    rb.commit(Some(author), author, Some(message))
}

/// Relies on `git2::Rebase::operation_current`: the index of the step being
/// applied, `None` before the first has begun.
#[verifier::external_body]
pub(crate) fn rebase_current_index(rb: &mut git2::Rebase<'_>) -> Option<usize> {
    rb.operation_current()
}

/// Relies on `git2::Rebase::nth`: the id of the commit the step at this
/// index replays.
#[verifier::external_body]
pub(crate) fn rebase_nth_id(rb: &mut git2::Rebase<'_>, n: usize) -> Option<git2::Oid> {
    match rb.nth(n) {
        Some(op) => Some(op.id()),
        None => None,
    }
}

/// Relies on `git2::Rebase::finish`: finalizes a rebase whose steps are all
/// applied.
#[verifier::external_body]
pub(crate) fn rebase_finish(
    rb: &mut git2::Rebase<'_>,
    sig: &git2::Signature<'_>,
) -> Result<(), git2::Error> {
    rb.finish(Some(sig))
}

} // verus!
