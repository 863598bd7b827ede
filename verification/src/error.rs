use vstd::prelude::*;

verus! {

/// The one error type of this crate.
///
/// Validation errors (an empty commit message, a reference to a node that is
/// not there) are rejected before any mutation. Failures of the underlying
/// version-control layer are carried through in `Vcs` with their message
/// preserved. A rebase step that cannot be applied automatically is the
/// distinguished `Conflict` case: it carries an actionable instruction, and
/// the suspended rebase is resumed later with `rebase_continue`.
#[derive(Debug)]
pub enum MyError {
    /// A commit was requested with an empty message.
    EmptyMessage,
    /// A node id was referenced that the tree does not contain.
    UnknownNode,
    /// A folder node was referenced where a content node is needed.
    IsDirectory,
    /// The location does not hold the book metadata marker.
    NotABook,
    /// The location does not hold version-control metadata.
    NotAVcsRepo(String),
    /// A required file (content or sidecar synopsis) is missing; the
    /// message names it.
    NotFound(String),
    /// A path or name is not valid UTF-8.
    InvalidPath,
    /// No identity record is available for authorship or authentication.
    ConfigMissing,
    /// HEAD does not target a local branch.
    NoCurrentBranch,
    /// `rebase_continue` was called while no rebase is in progress.
    NotInProgress,
    /// A rebase step could not be applied automatically; the message tells
    /// the user to resolve the working-tree files and continue.
    Conflict(String),
    /// Any other failure of the version-control layer, message preserved.
    Vcs(String),
}

impl MyError {
    /// A human-readable description of the error.
    pub fn message(&self) -> (r: String)
        ensures
            self matches MyError::Vcs(m) ==> r@ == m@,
    {
        match self {
            MyError::EmptyMessage => "Commit message cannot be empty".to_owned(),
            MyError::UnknownNode => "File doesn't exist".to_owned(),
            MyError::IsDirectory => "Is a directory".to_owned(),
            MyError::NotABook => "Not a Collabook directory".to_owned(),
            MyError::NotAVcsRepo(m) => m.clone(),
            MyError::NotFound(m) => m.clone(),
            MyError::InvalidPath => "Filename contains invalid utf-8".to_owned(),
            MyError::ConfigMissing => "Config file not found".to_owned(),
            MyError::NoCurrentBranch => "Could not find current branch".to_owned(),
            MyError::NotInProgress => "No rebase in progress".to_owned(),
            MyError::Conflict(m) => m.clone(),
            MyError::Vcs(m) => m.clone(),
        }
    }
}

} // verus!
