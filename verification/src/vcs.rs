//! The repository handle: one handle binds one working directory to one
//! repository, lives for a single operation, and exposes the commit, branch
//! and remote primitives. The decisions — validation before any mutation,
//! reference naming, error classification — are verified; every touch of the
//! repository itself goes through the trusted surface in `repo`.

use crate::auth::Author;
use crate::error::MyError;
use crate::repo::branch_is_head;
use crate::repo::branch_name_opt;
use crate::repo::branches_next;
use crate::repo::commit_author_owned;
use crate::repo::commit_message;
use crate::repo::commit_time_parts;
use crate::repo::commit_tree;
use crate::repo::error_message;
use crate::repo::index_add_all;
use crate::repo::index_write;
use crate::repo::index_write_tree;
use crate::repo::oid_hex;
use crate::repo::reference_resolve;
use crate::repo::reference_target;
use crate::repo::repo_branch_create;
use crate::repo::repo_branches_local;
use crate::repo::repo_checkout_head_force;
use crate::repo::repo_checkout_tree_force;
use crate::repo::repo_commit_head;
use crate::repo::repo_find_commit;
use crate::repo::repo_find_tree;
use crate::repo::repo_head;
use crate::repo::repo_index;
use crate::repo::repo_init;
use crate::repo::repo_open;
use crate::repo::repo_remote_add;
use crate::repo::repo_remote_names;
use crate::repo::repo_revwalk;
use crate::repo::repo_set_head;
use crate::repo::revwalk_next;
use crate::repo::revwalk_push_head;
use crate::repo::signature_name;
use crate::repo::signature_now;
use chrono::Datelike;
use vstd::prelude::*;
use vstd::string::*;

verus! {

/// A repository-layer failure carried through with its message preserved.
pub(crate) fn vcs_err(e: git2::Error) -> (r: MyError)
    ensures
        r is Vcs,
{
    MyError::Vcs(error_message(&e))
}

/// The reference path of the local branch `name`.
pub fn branch_ref_of(name: &str) -> (r: String)
    ensures
        r@ == ("refs/heads/")@ + name@,
{
    let mut s = String::from_str("refs/heads/");
    s.append(name);
    s
}

/// The remote-tracking reference of `branch` as fetched from `remote`.
pub fn upstream_ref_of(remote: &str, branch: &str) -> (r: String)
    ensures
        r@ == ("refs/remotes/")@ + remote@ + ("/")@ + branch@,
{
    let mut s = String::from_str("refs/remotes/");
    s.append(remote);
    s.append("/");
    s.append(branch);
    s
}

/// The refspec pushing the local branch onto its same-named remote branch.
pub fn push_refspec_of(branch: &str) -> (r: String)
    ensures
        r@ == ("refs/heads/")@ + branch@ + (":refs/heads/")@ + branch@,
{
    let mut s = String::from_str("refs/heads/");
    s.append(branch);
    s.append(":refs/heads/");
    s.append(branch);
    s
}

/// The refspec propagating the tracking ref of `branch` at remote `rm` onto
/// the same-named branch of another remote.
pub fn fork_refspec_of(rm: &str, branch: &str) -> (r: String)
    ensures
        r@ == ("refs/remotes/")@ + rm@ + ("/")@ + branch@ + (":refs/heads/")@ + branch@,
{
    let mut s = String::from_str("refs/remotes/");
    s.append(rm);
    s.append("/");
    s.append(branch);
    s.append(":refs/heads/");
    s.append(branch);
    s
}

/// One entry of the history listing.
pub struct GitLog {
    pub oid: String,
    pub message: String,
    pub author: String,
    pub time: String,
}

/// What the outside calendar library prints for an epoch second: a fixed
/// function of that second alone.
pub uninterp spec fn rfc2822_of(secs: int) -> Seq<char>;

/// Relies on `chrono::DateTime::from_timestamp` and
/// `chrono::DateTime::to_rfc2822`: the RFC 2822 rendering of the given
/// epoch second in UTC. The rendering only supports years 0 through 9999
/// (outside them `to_rfc2822` aborts), so any second that the calendar
/// cannot represent or the rendering does not cover yields `None`.
#[verifier::external_body]
fn rfc2822_utc(secs: i64) -> (r: Option<String>)
    ensures
        r matches Some(s) ==> s@ == rfc2822_of(secs as int),
{
    match chrono::DateTime::from_timestamp(secs, 0) {
        Some(dt) => {
            if dt.year() >= 0 && dt.year() <= 9999 {
                Some(dt.to_rfc2822())
            } else {
                None
            }
        },
        None => None,
    }
}

/// The names that are present in a run of optional names, in order.
pub open spec fn present_of(s: Seq<Option<String>>) -> Seq<Seq<char>>
    decreases s.len(),
{
    if s.len() == 0 {
        Seq::empty()
    } else {
        match s[0] {
            Some(n) => seq![n@] + present_of(s.drop_first()),
            None => present_of(s.drop_first()),
        }
    }
}

/// Keep exactly the entries that carry a name, in the order given.
pub fn present_names(names: &Vec<Option<String>>) -> (r: Vec<String>)
    ensures
        r@.map_values(|x: String| x@) == present_of(names@),
{
    let mut out: Vec<String> = Vec::new();
    let mut i: usize = 0;
    proof {
        assert(names@.skip(0) =~= names@);
        assert(out@.map_values(|x: String| x@) + present_of(names@) =~= present_of(names@));
    }
    while i < names.len()
        invariant
            i <= names@.len(),
            present_of(names@) == out@.map_values(|x: String| x@) + present_of(
                names@.skip(i as int),
            ),
        decreases names@.len() - i,
    {
        proof {
            assert(names@.skip(i as int)[0] == names@[i as int]);
            assert(names@.skip(i as int).drop_first() =~= names@.skip(i + 1));
        }
        match &names[i] {
            Some(n) => {
                let ghost prior = out@.map_values(|x: String| x@);
                out.push(n.clone());
                proof {
                    assert(out@.map_values(|x: String| x@) =~= prior.push(n@));
                    assert(prior.push(n@) =~= prior + seq![n@]);
                    assert((prior + seq![n@]) + present_of(names@.skip(i + 1)) =~= prior + (
                    seq![n@] + present_of(names@.skip(i + 1))));
                }
            },
            None => (),
        }
        i += 1;
    }
    proof {
        assert(names@.skip(names@.len() as int).len() == 0);
        assert(out@.map_values(|x: String| x@) + Seq::<Seq<char>>::empty() =~= out@.map_values(
            |x: String| x@,
        ));
    }
    out
}

/// One history entry assembled from what the layer reported of a commit:
/// the id in hex, the message and author passed through unchanged, and the
/// commit's own time shifted by its timezone offset, rendered per RFC 2822.
/// A time the shift carries out of range, or one the rendering does not
/// cover, is an error — never a partial entry.
pub fn log_entry(oid: &git2::Oid, message: String, author: String, secs: i64, offset: i32) -> (r:
    Result<GitLog, MyError>)
    ensures
        r matches Ok(l) ==> ({
            let shifted = secs as int + 60 * (offset as int);
            &&& l.oid@.len() == 40
            &&& l.message@ == message@
            &&& l.author@ == author@
            &&& i64::MIN <= shifted <= i64::MAX
            &&& l.time@ == rfc2822_of(shifted)
        }),
        r matches Err(e) ==> e is Vcs,
        (secs as int + 60 * (offset as int) < i64::MIN || secs as int + 60 * (offset as int)
            > i64::MAX) ==> r is Err,
{
    let shifted: i128 = secs as i128 + (offset as i128) * 60;
    if shifted < i64::MIN as i128 || shifted > i64::MAX as i128 {
        return Err(MyError::Vcs(String::from_str("Commit time out of range")));
    }
    let time = match rfc2822_utc(shifted as i64) {
        Some(t) => t,
        None => return Err(MyError::Vcs(String::from_str("Commit time out of range"))),
    };
    Ok(GitLog { oid: oid_hex(oid), message, author, time })
}

/// One working directory bound to its repository for a single operation.
pub struct BookRepo {
    pub(crate) repo: git2::Repository,
}

impl BookRepo {
    /// Create (or reopen) the repository inside a book directory.
    pub fn new(location: &str) -> (r: Result<BookRepo, MyError>)
        ensures
            r matches Err(e) ==> e is Vcs,
    {
        match repo_init(location) {
            Ok(repo) => Ok(BookRepo { repo }),
            Err(e) => Err(vcs_err(e)),
        }
    }

    /// Attach to the repository of an existing book. A location without
    /// repository metadata is no repository.
    pub fn from_location(location: &str) -> (r: Result<BookRepo, MyError>)
        ensures
            r matches Err(e) ==> e is NotAVcsRepo,
    {
        match repo_open(location) {
            Ok(repo) => Ok(BookRepo { repo }),
            Err(e) => Err(MyError::NotAVcsRepo(error_message(&e))),
        }
    }

    /// Stage the whole working tree, as one staged-all index.
    pub(crate) fn add_all(&self) -> (r: Result<git2::Index, MyError>)
        ensures
            r matches Err(e) ==> e is Vcs,
    {
        let mut index = match repo_index(&self.repo) {
            Ok(i) => i,
            Err(e) => return Err(vcs_err(e)),
        };
        match index_add_all(&mut index) {
            Ok(_) => (),
            Err(e) => return Err(vcs_err(e)),
        }
        match index_write(&mut index) {
            Ok(_) => (),
            Err(e) => return Err(vcs_err(e)),
        }
        Ok(index)
    }

    /// Commit the whole working tree under the author's signature. An empty
    /// message is rejected before anything is staged or written; otherwise
    /// the snapshot is parented on HEAD when a head commit exists and is a
    /// root commit when none does.
    pub fn commit(&self, message: &str, author: &Author) -> (r: Result<git2::Oid, MyError>)
        ensures
            message@.len() == 0 <==> r == Err::<git2::Oid, MyError>(MyError::EmptyMessage),
            r matches Err(e) ==> (e is EmptyMessage || e is Vcs),
    {
        if message.unicode_len() == 0 {
            return Err(MyError::EmptyMessage);
        }
        let mut index = match self.add_all() {
            Ok(i) => i,
            Err(e) => return Err(e),
        };
        let sig = match signature_now(author.name.as_str(), author.email.as_str()) {
            Ok(s) => s,
            Err(e) => return Err(vcs_err(e)),
        };
        let tree_id = match index_write_tree(&mut index) {
            Ok(t) => t,
            Err(e) => return Err(vcs_err(e)),
        };
        let tree = match repo_find_tree(&self.repo, &tree_id) {
            Ok(t) => t,
            Err(e) => return Err(vcs_err(e)),
        };
        match repo_head(&self.repo) {
            Ok(head) => {
                let target = match reference_target(&head) {
                    Some(t) => t,
                    None => return Err(MyError::Vcs(String::from_str("Cannot get target from head"))),
                };
                let parent = match repo_find_commit(&self.repo, &target) {
                    Ok(c) => c,
                    Err(e) => return Err(vcs_err(e)),
                };
                match repo_commit_head(&self.repo, &sig, message, &tree, Some(&parent)) {
                    Ok(oid) => Ok(oid),
                    Err(e) => Err(vcs_err(e)),
                }
            },
            Err(_) => {
                match repo_commit_head(&self.repo, &sig, message, &tree, None) {
                    Ok(oid) => Ok(oid),
                    Err(e) => Err(vcs_err(e)),
                }
            },
        }
    }

    /// Point a new branch at the tip of HEAD. With no commit yet there is
    /// nothing to point at, and the layer's error comes through.
    pub fn create_branch(&self, name: &str) -> (r: Result<(), MyError>)
        ensures
            r matches Err(e) ==> e is Vcs,
    {
        let head = match repo_head(&self.repo) {
            Ok(h) => h,
            Err(e) => return Err(vcs_err(e)),
        };
        let resolved = match reference_resolve(&head) {
            Ok(h) => h,
            Err(e) => return Err(vcs_err(e)),
        };
        let target = match reference_target(&resolved) {
            Some(t) => t,
            None => return Err(MyError::Vcs(String::from_str("Cannot get current latest commit OID"))),
        };
        let commit = match repo_find_commit(&self.repo, &target) {
            Ok(c) => c,
            Err(e) => return Err(vcs_err(e)),
        };
        match repo_branch_create(&self.repo, name, &commit) {
            Ok(_) => Ok(()),
            Err(e) => Err(vcs_err(e)),
        }
    }

    /// Repoint HEAD at the named local branch and force the working
    /// directory to that branch's committed snapshot: uncommitted edits on
    /// overwritten paths are discarded, never merged.
    pub fn switch_branch(&self, name: &str) -> (r: Result<(), MyError>)
        ensures
            r matches Err(e) ==> e is Vcs,
    {
        let branch_ref = branch_ref_of(name);
        match repo_set_head(&self.repo, branch_ref.as_str()) {
            Ok(_) => (),
            Err(e) => return Err(vcs_err(e)),
        }
        match repo_checkout_head_force(&self.repo) {
            Ok(_) => Ok(()),
            Err(e) => Err(vcs_err(e)),
        }
    }

    /// The names of the local branches. A branch whose name is not valid
    /// UTF-8 is a fatal error, never skipped.
    pub fn get_branches(&self) -> (r: Result<Vec<String>, MyError>)
        ensures
            r matches Err(e) ==> (e is Vcs || e is InvalidPath),
    {
        let mut branches = match repo_branches_local(&self.repo) {
            Ok(b) => b,
            Err(e) => return Err(vcs_err(e)),
        };
        let mut out: Vec<String> = Vec::new();
        let mut fuel: usize = usize::MAX;
        while fuel > 0
            decreases fuel,
        {
            match branches_next(&mut branches) {
                None => {
                    return Ok(out);
                },
                Some(Ok(b)) => {
                    match branch_name_opt(&b) {
                        Ok(Some(n)) => out.push(n),
                        Ok(None) => return Err(MyError::InvalidPath),
                        Err(e) => return Err(vcs_err(e)),
                    }
                },
                Some(Err(e)) => {
                    return Err(vcs_err(e));
                },
            }
            fuel -= 1;
        }
        Ok(out)
    }

    /// The local branch HEAD targets.
    pub(crate) fn current_branch<'a>(&'a self) -> (r: Result<git2::Branch<'a>, MyError>)
        ensures
            r matches Err(e) ==> (e is NoCurrentBranch || e is Vcs),
    {
        let mut branches = match repo_branches_local(&self.repo) {
            Ok(b) => b,
            Err(e) => return Err(vcs_err(e)),
        };
        let mut fuel: usize = usize::MAX;
        while fuel > 0
            decreases fuel,
        {
            match branches_next(&mut branches) {
                None => {
                    return Err(MyError::NoCurrentBranch);
                },
                Some(Ok(b)) => {
                    if branch_is_head(&b) {
                        return Ok(b);
                    }
                },
                Some(Err(e)) => {
                    return Err(vcs_err(e));
                },
            }
            fuel -= 1;
        }
        Err(MyError::NoCurrentBranch)
    }

    /// The name of the branch HEAD targets; with HEAD detached there is no
    /// current branch.
    pub fn current_branch_name(&self) -> (r: Result<String, MyError>)
        ensures
            r matches Err(e) ==> (e is NoCurrentBranch || e is Vcs || e is InvalidPath),
    {
        let branch = match self.current_branch() {
            Ok(b) => b,
            Err(e) => return Err(e),
        };
        match branch_name_opt(&branch) {
            Ok(Some(n)) => Ok(n),
            Ok(None) => Err(MyError::InvalidPath),
            Err(e) => Err(vcs_err(e)),
        }
    }

    /// Register a remote under this name and URL.
    pub fn add_remote(&self, name: &str, url: &str) -> (r: Result<(), MyError>)
        ensures
            r matches Err(e) ==> e is Vcs,
    {
        match repo_remote_add(&self.repo, name, url) {
            Ok(_) => Ok(()),
            Err(e) => Err(vcs_err(e)),
        }
    }

    /// The names of the configured remotes; one the layer cannot render as
    /// UTF-8 is left out, as the layer itself presents it namelessly. The
    /// result is exactly the named entries of what the layer handed over,
    /// in order.
    pub fn get_remotes(&self) -> (r: Result<Vec<String>, MyError>)
        ensures
            r matches Err(e) ==> e is Vcs,
    {
        let names = match repo_remote_names(&self.repo) {
            Ok(n) => n,
            Err(e) => return Err(vcs_err(e)),
        };
        Ok(present_names(&names))
    }

    /// The history reachable from HEAD, in the walk's topological order,
    /// newest first: id, message, author and an RFC 2822 timestamp shifted
    /// by the commit's own timezone offset.
    pub fn log(&self) -> (r: Result<Vec<GitLog>, MyError>)
        ensures
            r matches Err(e) ==> e is Vcs,
    {
        let mut walk = match repo_revwalk(&self.repo) {
            Ok(w) => w,
            Err(e) => return Err(vcs_err(e)),
        };
        match revwalk_push_head(&mut walk) {
            Ok(_) => (),
            Err(e) => return Err(vcs_err(e)),
        }
        let mut oids: Vec<git2::Oid> = Vec::new();
        let mut fuel: usize = usize::MAX;
        while fuel > 0
            decreases fuel,
        {
            match revwalk_next(&mut walk) {
                None => break,
                Some(Ok(oid)) => oids.push(oid),
                Some(Err(e)) => return Err(vcs_err(e)),
            }
            fuel -= 1;
        }
        let mut logs: Vec<GitLog> = Vec::new();
        let mut i: usize = 0;
        while i < oids.len()
            decreases oids@.len() - i,
        {
            let commit = match repo_find_commit(&self.repo, &oids[i]) {
                Ok(c) => c,
                Err(e) => return Err(vcs_err(e)),
            };
            let message = match commit_message(&commit) {
                Ok(m) => m,
                Err(_) => String::new(),
            };
            let sig = commit_author_owned(&commit);
            let author = match signature_name(&sig) {
                Ok(n) => n,
                Err(_) => String::new(),
            };
            let (secs, offset) = commit_time_parts(&commit);
            let entry = match log_entry(&oids[i], message, author, secs, offset) {
                Ok(l) => l,
                Err(e) => return Err(e),
            };
            logs.push(entry);
            i += 1;
        }
        Ok(logs)
    }

    /// Force the working directory to an arbitrary historical commit's
    /// snapshot without moving any branch.
    pub fn checkout_commit(&self, oid: &git2::Oid) -> (r: Result<(), MyError>)
        ensures
            r matches Err(e) ==> e is Vcs,
    {
        let commit = match repo_find_commit(&self.repo, oid) {
            Ok(c) => c,
            Err(e) => return Err(vcs_err(e)),
        };
        let tree = match commit_tree(&commit) {
            Ok(t) => t,
            Err(e) => return Err(vcs_err(e)),
        };
        match repo_checkout_tree_force(&self.repo, &tree) {
            Ok(_) => Ok(()),
            Err(e) => Err(vcs_err(e)),
        }
    }
}

} // verus!
