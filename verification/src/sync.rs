//! The synchronization engine: pull, push and fork-sync as fetch-then-rebase
//! sequences — never merges. The rebase machinery replays the local commits
//! onto the fetched upstream one step at a time; a step that cannot be
//! applied automatically suspends the protocol with a typed conflict, and
//! the suspension lives in the repository's own on-disk state, so it
//! survives the end of the request and is resumed by `rebase_continue`.

use crate::auth::Author;
use crate::error::MyError;
use crate::repo::branch_name_opt;
use crate::repo::branch_reference;
use crate::repo::branch_wrap;
use crate::repo::commit_author_owned;
use crate::repo::commit_message;
use crate::repo::error_is_conflict;
use crate::repo::oid_hex;
use crate::repo::oid_parse;
use crate::repo::rebase_begin;
use crate::repo::rebase_commit_step;
use crate::repo::rebase_current_index;
use crate::repo::rebase_finish;
use crate::repo::rebase_next_id;
use crate::repo::rebase_nth_id;
use crate::repo::rebase_open;
use crate::repo::reference_annotated;
use crate::repo::remote_fetch_all;
use crate::repo::remote_fetch_one;
use crate::repo::remote_name_opt;
use crate::repo::remote_push_auth;
use crate::repo::repo_clone_auth;
use crate::repo::repo_find_branch_local;
use crate::repo::repo_find_commit;
use crate::repo::repo_find_reference;
use crate::repo::repo_find_remote;
use crate::repo::signature_now;
use crate::vcs::fork_refspec_of;
use crate::vcs::push_refspec_of;
use crate::vcs::upstream_ref_of;
use crate::vcs::vcs_err;
use crate::vcs::BookRepo;
use vstd::prelude::*;
use vstd::string::*;

verus! {

/// Where the rebase protocol stands, read off the repository itself: no
/// rebase in progress, or suspended while replaying the step at this index.
#[derive(PartialEq, Eq, Structural, Clone, Copy, Debug)]
pub enum RebaseState {
    Idle,
    Active(usize),
}

/// The instruction every conflict carries.
pub open spec fn conflict_instruction_text() -> Seq<char> {
    ("Conflicts while rebasing: edit the conflicted files to resolve them, then continue the rebase")@
}

/// The instruction handed to the user when a rebase step conflicts.
pub fn conflict_instruction() -> (r: String)
    ensures
        r@ == conflict_instruction_text(),
{
    String::from_str(
        "Conflicts while rebasing: edit the conflicted files to resolve them, then continue the rebase",
    )
}

/// The protocol state read off the layer's two answers: a repository with
/// no rebase to reopen is idle; one with an open rebase is active at the
/// step being applied, or at the first step when none has begun yet.
pub fn rebase_state_of(open_ok: bool, current: Option<usize>) -> (r: RebaseState)
    ensures
        !open_ok ==> r == RebaseState::Idle,
        open_ok ==> r == (match current {
            Some(i) => RebaseState::Active(i),
            None => RebaseState::Active(0),
        }),
{
    if !open_ok {
        RebaseState::Idle
    } else {
        match current {
            Some(i) => RebaseState::Active(i),
            None => RebaseState::Active(0),
        }
    }
}

impl BookRepo {
    /// Where the rebase protocol stands, derived purely from the
    /// repository's own on-disk state — never from a process variable — so
    /// that a suspension outlives the request that caused it.
    pub fn rebase_state(&self) -> RebaseState {
        match rebase_open(&self.repo) {
            Err(_) => rebase_state_of(false, None),
            Ok(mut rb) => {
                let current = rebase_current_index(&mut rb);
                rebase_state_of(true, current)
            },
        }
    }

    /// Commit one replayed step under the original commit's author and
    /// message. A step the layer cannot apply for conflicts suspends the
    /// protocol: the typed conflict comes back and the rebase is left in
    /// place, to be resumed after the user edits the working tree.
    fn replay_step(&self, rb: &mut git2::Rebase<'_>, oid: &git2::Oid) -> (r: Result<(), MyError>)
        ensures
            r matches Err(e) ==> (e is Conflict || e is Vcs),
            r matches Err(MyError::Conflict(m)) ==> m@ == conflict_instruction_text(),
    {
        let commit = match repo_find_commit(&self.repo, oid) {
            Ok(c) => c,
            Err(e) => return Err(vcs_err(e)),
        };
        let message = match commit_message(&commit) {
            Ok(m) => m,
            Err(_) => String::new(),
        };
        let sig = commit_author_owned(&commit);
        match rebase_commit_step(rb, &sig, message.as_str()) {
            Ok(_) => Ok(()),
            Err(e) => {
                if error_is_conflict(&e) {
                    Err(MyError::Conflict(conflict_instruction()))
                } else {
                    Err(vcs_err(e))
                }
            },
        }
    }

    /// Replay the remaining steps of an open rebase and finalize it with
    /// the given signature; a conflicted step suspends instead.
    fn replay_rest(&self, rb: &mut git2::Rebase<'_>, finish_name: &str, finish_email: &str) -> (r:
        Result<(), MyError>)
        ensures
            r matches Err(e) ==> (e is Conflict || e is Vcs),
            r matches Err(MyError::Conflict(m)) ==> m@ == conflict_instruction_text(),
    {
        let mut fuel: usize = usize::MAX;
        while fuel > 0
            decreases fuel,
        {
            match rebase_next_id(rb) {
                None => break,
                Some(Ok(oid)) => {
                    match self.replay_step(rb, &oid) {
                        Ok(_) => (),
                        Err(e) => return Err(e),
                    }
                },
                Some(Err(e)) => return Err(vcs_err(e)),
            }
            fuel -= 1;
        }
        let sig = match signature_now(finish_name, finish_email) {
            Ok(s) => s,
            Err(e) => return Err(vcs_err(e)),
        };
        match rebase_finish(rb, &sig) {
            Ok(_) => Ok(()),
            Err(e) => Err(vcs_err(e)),
        }
    }

    /// Rebase `branch` onto `upstream`: replay the commits reachable from
    /// the branch but not from upstream, in the order the layer walks them,
    /// reapplying each commit's original message and author. A clean replay
    /// finalizes; a conflicted step returns the typed conflict with the
    /// repository left suspended in the rebase.
    pub(crate) fn rebase_branches(
        &self,
        branch: &git2::Branch<'_>,
        upstream: &git2::Branch<'_>,
    ) -> (r: Result<(), MyError>)
        ensures
            r matches Err(e) ==> (e is Conflict || e is Vcs),
            r matches Err(MyError::Conflict(m)) ==> m@ == conflict_instruction_text(),
    {
        let branch_ac = match reference_annotated(&self.repo, branch_reference(branch)) {
            Ok(a) => a,
            Err(e) => return Err(vcs_err(e)),
        };
        let upstream_ac = match reference_annotated(&self.repo, branch_reference(upstream)) {
            Ok(a) => a,
            Err(e) => return Err(vcs_err(e)),
        };
        let mut rb = match rebase_begin(&self.repo, &branch_ac, &upstream_ac) {
            Ok(r) => r,
            Err(e) => return Err(vcs_err(e)),
        };
        self.replay_rest(&mut rb, "test", "test")
    }

    /// Resume a suspended rebase. With none in progress this is
    /// `NotInProgress`. Otherwise the working tree as it now stands is
    /// staged as the user's resolution, the stalled step is committed under
    /// its original message and author, and the remaining steps replay; a
    /// fresh conflict suspends again, and a clean run finalizes to idle.
    pub fn rebase_continue(&self) -> (r: Result<(), MyError>)
        ensures
            r matches Err(e) ==> (e is NotInProgress || e is Conflict || e is Vcs),
            r matches Err(MyError::Conflict(m)) ==> m@ == conflict_instruction_text(),
    {
        match self.add_all() {
            Ok(_) => (),
            Err(e) => return Err(e),
        }
        let mut rb = match rebase_open(&self.repo) {
            Ok(r) => r,
            Err(_) => return Err(MyError::NotInProgress),
        };
        let current = match rebase_current_index(&mut rb) {
            Some(i) => i,
            None => return Err(MyError::Vcs(String::from_str("Could not find current operation"))),
        };
        let oid = match rebase_nth_id(&mut rb, current) {
            Some(o) => o,
            None => return Err(MyError::Vcs(String::from_str("Could not get current patch"))),
        };
        match self.replay_step(&mut rb, &oid) {
            Ok(_) => (),
            Err(e) => return Err(e),
        }
        self.replay_rest(&mut rb, "rebaseauthor", "rebasemail")
    }

    /// Fetch the current branch from the named remote, then rebase it onto
    /// the fetched upstream tip.
    pub fn fetch_and_rebase(&self, from: &str) -> (r: Result<(), MyError>)
        ensures
            r matches Err(e) ==> (e is Conflict || e is Vcs || e is NoCurrentBranch
                || e is InvalidPath),
            r matches Err(MyError::Conflict(m)) ==> m@ == conflict_instruction_text(),
    {
        let branch = match self.current_branch() {
            Ok(b) => b,
            Err(e) => return Err(e),
        };
        let branch_name = match branch_name_opt(&branch) {
            Ok(Some(n)) => n,
            Ok(None) => return Err(MyError::InvalidPath),
            Err(e) => return Err(vcs_err(e)),
        };
        let mut remote = match repo_find_remote(&self.repo, from) {
            Ok(r) => r,
            Err(e) => return Err(vcs_err(e)),
        };
        match remote_fetch_one(&mut remote, branch_name.as_str()) {
            Ok(_) => (),
            Err(e) => return Err(vcs_err(e)),
        }
        let upstream_ref_name = upstream_ref_of(from, branch_name.as_str());
        let upstream_ref = match repo_find_reference(&self.repo, upstream_ref_name.as_str()) {
            Ok(r) => r,
            Err(e) => return Err(vcs_err(e)),
        };
        let upstream = branch_wrap(upstream_ref);
        self.rebase_branches(&branch, &upstream)
    }

    /// Pull: fetch the remote copy of the current branch, then linearize
    /// the local work on top of it by rebase.
    pub fn pull(&self, from: &str) -> (r: Result<(), MyError>)
        ensures
            r matches Err(e) ==> (e is Conflict || e is Vcs || e is NoCurrentBranch
                || e is InvalidPath),
            r matches Err(MyError::Conflict(m)) ==> m@ == conflict_instruction_text(),
    {
        self.fetch_and_rebase(from)
    }

    /// Push the given branch onto its same-named branch at the remote,
    /// authenticating through the identity record.
    pub(crate) fn push_branch(
        &self,
        branch: &git2::Branch<'_>,
        remote: &mut git2::Remote<'_>,
        author: Option<&Author>,
    ) -> (r: Result<(), MyError>)
        ensures
            r matches Err(e) ==> (e is Vcs || e is InvalidPath),
    {
        let branch_name = match branch_name_opt(branch) {
            Ok(Some(n)) => n,
            Ok(None) => return Err(MyError::InvalidPath),
            Err(e) => return Err(vcs_err(e)),
        };
        let mut refspecs: Vec<String> = Vec::new();
        refspecs.push(push_refspec_of(branch_name.as_str()));
        match remote_push_auth(remote, &refspecs, author) {
            Ok(_) => Ok(()),
            Err(e) => Err(vcs_err(e)),
        }
    }

    /// Push: fetch, rebase the local branch onto what was fetched, and only
    /// if the rebase completes without suspending push the now-linear
    /// branch onto the identically named remote branch. A suspension aborts
    /// the push and surfaces the typed conflict: the user resolves the
    /// files and continues the rebase before pushing again. A branch the
    /// remote does not hold yet has nothing to rebase onto and is pushed as
    /// it stands.
    pub fn push(&self, remote_name: &str, author: Option<&Author>) -> (r: Result<(), MyError>)
        ensures
            r matches Err(e) ==> (e is Conflict || e is Vcs || e is NoCurrentBranch
                || e is InvalidPath),
            r matches Err(MyError::Conflict(m)) ==> m@ == conflict_instruction_text(),
    {
        let branch = match self.current_branch() {
            Ok(b) => b,
            Err(e) => return Err(e),
        };
        let branch_name = match branch_name_opt(&branch) {
            Ok(Some(n)) => n,
            Ok(None) => return Err(MyError::InvalidPath),
            Err(e) => return Err(vcs_err(e)),
        };
        let mut remote = match repo_find_remote(&self.repo, remote_name) {
            Ok(r) => r,
            Err(e) => return Err(vcs_err(e)),
        };
        match remote_fetch_one(&mut remote, branch_name.as_str()) {
            Ok(_) => (),
            // a branch the remote does not hold yet yields nothing to
            // fetch; a real transport failure resurfaces at the push itself
            Err(_) => (),
        }
        let upstream_ref_name = upstream_ref_of(remote_name, branch_name.as_str());
        match repo_find_reference(&self.repo, upstream_ref_name.as_str()) {
            Ok(upstream_ref) => {
                let upstream = branch_wrap(upstream_ref);
                match self.rebase_branches(&branch, &upstream) {
                    Ok(_) => (),
                    Err(e) => return Err(e),
                }
            },
            Err(_) => (),
        }
        self.push_branch(&branch, &mut remote, author)
    }

    /// Fork sync: fully fetch `upstream`, then push each named
    /// upstream-tracking ref directly onto the same-named ref of `origin`,
    /// propagating upstream history into the fork without rebasing any
    /// local work.
    pub fn sync_fork(
        &self,
        origin_name: &str,
        upstream_name: &str,
        branches: &Vec<String>,
        author: Option<&Author>,
    ) -> (r: Result<(), MyError>)
        ensures
            r matches Err(e) ==> e is Vcs,
    {
        let mut upstream = match repo_find_remote(&self.repo, upstream_name) {
            Ok(r) => r,
            Err(e) => return Err(vcs_err(e)),
        };
        match remote_fetch_all(&mut upstream) {
            Ok(_) => (),
            Err(e) => return Err(vcs_err(e)),
        }
        let rm_name = match remote_name_opt(&upstream) {
            Some(n) => n,
            None => return Err(MyError::Vcs(String::from_str("Remote name not valid"))),
        };
        let mut refspecs: Vec<String> = Vec::new();
        let mut i: usize = 0;
        while i < branches.len()
            invariant
                i <= branches@.len(),
                refspecs@.len() == i,
                forall|k: int|
                    0 <= k < i ==> refspecs@[k]@ == ("refs/remotes/")@ + rm_name@ + ("/")@
                        + branches@[k]@ + (":refs/heads/")@ + branches@[k]@,
            decreases branches@.len() - i,
        {
            refspecs.push(fork_refspec_of(rm_name.as_str(), branches[i].as_str()));
            i += 1;
        }
        let mut origin = match repo_find_remote(&self.repo, origin_name) {
            Ok(r) => r,
            Err(e) => return Err(vcs_err(e)),
        };
        match remote_push_auth(&mut origin, &refspecs, author) {
            Ok(_) => Ok(()),
            Err(e) => Err(vcs_err(e)),
        }
    }

    /// Rebase the current branch onto another local branch.
    pub fn merge_branch(&self, name: &str) -> (r: Result<(), MyError>)
        ensures
            r matches Err(e) ==> (e is Conflict || e is Vcs || e is NoCurrentBranch),
            r matches Err(MyError::Conflict(m)) ==> m@ == conflict_instruction_text(),
    {
        let current = match self.current_branch() {
            Ok(b) => b,
            Err(e) => return Err(e),
        };
        let upstream = match repo_find_branch_local(&self.repo, name) {
            Ok(b) => b,
            Err(e) => return Err(vcs_err(e)),
        };
        self.rebase_branches(&current, &upstream)
    }
}

/// Commit the working tree of the book at `location`. The empty message is
/// rejected before anything is opened, staged or written; success hands
/// back the new commit id in hex.
pub fn commit_request(location: &str, message: &str, author: &Author) -> (r: Result<
    String,
    MyError,
>)
    ensures
        message@.len() == 0 <==> r == Err::<String, MyError>(MyError::EmptyMessage),
        r matches Err(e) ==> (e is EmptyMessage || e is Vcs || e is NotAVcsRepo),
{
    if message.unicode_len() == 0 {
        return Err(MyError::EmptyMessage);
    }
    let repo = match BookRepo::from_location(location) {
        Ok(r) => r,
        Err(e) => return Err(e),
    };
    match repo.commit(message, author) {
        Ok(oid) => Ok(oid_hex(&oid)),
        Err(e) => Err(e),
    }
}

/// The history of the book at `location`, newest first.
pub fn log_request(location: &str) -> (r: Result<Vec<crate::vcs::GitLog>, MyError>)
    ensures
        r matches Err(e) ==> (e is Vcs || e is NotAVcsRepo),
{
    let repo = match BookRepo::from_location(location) {
        Ok(r) => r,
        Err(e) => return Err(e),
    };
    repo.log()
}

/// View the book at `location` as it stood at the commit named in hex.
pub fn checkout_request(location: &str, oid: &str) -> (r: Result<(), MyError>)
    ensures
        r matches Err(e) ==> (e is Vcs || e is NotAVcsRepo),
{
    let repo = match BookRepo::from_location(location) {
        Ok(r) => r,
        Err(e) => return Err(e),
    };
    let oid = match oid_parse(oid) {
        Ok(o) => o,
        Err(e) => return Err(vcs_err(e)),
    };
    repo.checkout_commit(&oid)
}

/// Switch the book at `location` to the named branch, discarding
/// uncommitted edits on overwritten paths.
pub fn switch_branch_request(location: &str, name: &str) -> (r: Result<(), MyError>)
    ensures
        r matches Err(e) ==> (e is Vcs || e is NotAVcsRepo),
{
    let repo = match BookRepo::from_location(location) {
        Ok(r) => r,
        Err(e) => return Err(e),
    };
    repo.switch_branch(name)
}

/// Point a new branch of the book at `location` at the tip of HEAD.
pub fn create_branch_request(location: &str, name: &str) -> (r: Result<(), MyError>)
    ensures
        r matches Err(e) ==> (e is Vcs || e is NotAVcsRepo),
{
    let repo = match BookRepo::from_location(location) {
        Ok(r) => r,
        Err(e) => return Err(e),
    };
    repo.create_branch(name)
}

/// Register a remote of the book at `location`.
pub fn remote_add_request(location: &str, name: &str, url: &str) -> (r: Result<(), MyError>)
    ensures
        r matches Err(e) ==> (e is Vcs || e is NotAVcsRepo),
{
    let repo = match BookRepo::from_location(location) {
        Ok(r) => r,
        Err(e) => return Err(e),
    };
    repo.add_remote(name, url)
}

/// The remotes configured for the book at `location`.
pub fn get_remote_request(location: &str) -> (r: Result<Vec<String>, MyError>)
    ensures
        r matches Err(e) ==> (e is Vcs || e is NotAVcsRepo),
{
    let repo = match BookRepo::from_location(location) {
        Ok(r) => r,
        Err(e) => return Err(e),
    };
    repo.get_remotes()
}

/// Fetch from the named remote and rebase the current branch onto it.
pub fn rebase_request(location: &str, name: &str) -> (r: Result<(), MyError>)
    ensures
        r matches Err(e) ==> (e is Conflict || e is Vcs || e is NotAVcsRepo
            || e is NoCurrentBranch || e is InvalidPath),
        r matches Err(MyError::Conflict(m)) ==> m@ == conflict_instruction_text(),
{
    let repo = match BookRepo::from_location(location) {
        Ok(r) => r,
        Err(e) => return Err(e),
    };
    repo.fetch_and_rebase(name)
}

/// Resume the suspended rebase of the book at `location`.
pub fn rebase_continue_request(location: &str) -> (r: Result<(), MyError>)
    ensures
        r matches Err(e) ==> (e is NotInProgress || e is Conflict || e is Vcs
            || e is NotAVcsRepo),
        r matches Err(MyError::Conflict(m)) ==> m@ == conflict_instruction_text(),
{
    let repo = match BookRepo::from_location(location) {
        Ok(r) => r,
        Err(e) => return Err(e),
    };
    repo.rebase_continue()
}

/// Pull the current branch of the book at `location` from the named remote.
pub fn pull_request(location: &str, name: &str) -> (r: Result<(), MyError>)
    ensures
        r matches Err(e) ==> (e is Conflict || e is Vcs || e is NotAVcsRepo
            || e is NoCurrentBranch || e is InvalidPath),
        r matches Err(MyError::Conflict(m)) ==> m@ == conflict_instruction_text(),
{
    let repo = match BookRepo::from_location(location) {
        Ok(r) => r,
        Err(e) => return Err(e),
    };
    repo.pull(name)
}

/// Push the current branch of the book at `location` onto the named remote,
/// rebasing first; a conflict aborts the push.
pub fn push_request(location: &str, name: &str, author: Option<&Author>) -> (r: Result<
    (),
    MyError,
>)
    ensures
        r matches Err(e) ==> (e is Conflict || e is Vcs || e is NotAVcsRepo
            || e is NoCurrentBranch || e is InvalidPath),
        r matches Err(MyError::Conflict(m)) ==> m@ == conflict_instruction_text(),
{
    let repo = match BookRepo::from_location(location) {
        Ok(r) => r,
        Err(e) => return Err(e),
    };
    repo.push(name, author)
}

/// Rebase the current branch of the book at `location` onto another local
/// branch.
pub fn merge_branch_request(location: &str, name: &str) -> (r: Result<(), MyError>)
    ensures
        r matches Err(e) ==> (e is Conflict || e is Vcs || e is NotAVcsRepo
            || e is NoCurrentBranch),
        r matches Err(MyError::Conflict(m)) ==> m@ == conflict_instruction_text(),
{
    let repo = match BookRepo::from_location(location) {
        Ok(r) => r,
        Err(e) => return Err(e),
    };
    repo.merge_branch(name)
}

/// Clone the repository at `url` into `location`, authenticating through
/// the identity record.
pub fn clone_request(location: &str, url: &str, author: Option<&Author>) -> (r: Result<
    (),
    MyError,
>)
    ensures
        r matches Err(e) ==> e is Vcs,
{
    match repo_clone_auth(url, location, author) {
        Ok(_) => Ok(()),
        Err(e) => Err(vcs_err(e)),
    }
}

/// Propagate the named branches of `upstream` into `origin` for the book at
/// `location`.
pub fn sync_fork_request(
    location: &str,
    origin: &str,
    upstream: &str,
    branches: &Vec<String>,
    author: Option<&Author>,
) -> (r: Result<(), MyError>)
    ensures
        r matches Err(e) ==> (e is Vcs || e is NotAVcsRepo),
{
    let repo = match BookRepo::from_location(location) {
        Ok(r) => r,
        Err(e) => return Err(e),
    };
    repo.sync_fork(origin, upstream, branches, author)
}

} // verus!
