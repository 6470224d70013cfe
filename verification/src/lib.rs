//! Backend engine of a desktop Git client: it opens a working repository,
//! classifies working-tree and index state, reconstructs line-oriented diffs,
//! writes commits, counts ahead/behind commits, and synchronizes with remotes.
//!
//! All repository access goes through libgit2 (the `git2` crate); the calls
//! into it stand behind small trusted wrappers in [`external`], and every
//! decision made around those calls is verified.

pub mod cmd;
pub mod db;
pub mod diff;
pub mod error;
pub mod external;
pub mod git;
pub mod state;
pub mod status;
pub mod utils;
