//! Core of a collaborative long-form writing tool.
//!
//! A manuscript ("book") is a tree of folders and files on disk. Every node
//! carries a stable identity derived from its slash-normalized relative path.
//! The tree is synchronized between collaborators through a version-control
//! substrate (commit, branch, rebase, push, pull) with a resumable conflict
//! protocol. This crate holds the verified model and logic; the disk walking,
//! network transport and process plumbing live outside it.

pub mod auth;
pub mod error;
pub mod github;
pub mod ident;
pub mod repo;
pub mod sync;
pub mod templates;
pub mod vcs;
pub mod tree;
