//! The data model: the session holding the one open repository, and the
//! plain value types that queries return.

use vstd::prelude::*;

verus! {

/// The session: at most one open repository, replaced wholesale by `open`.
/// Every operation on an empty session fails with `RepoNotFound`.
pub struct MyState {
    pub repo: Option<crate::git::Repo>,
}

/// Which kind of branches an enumeration asks for.
#[derive(Debug, Clone, Copy, PartialEq, Eq, Structural)]
pub enum MyBranchType {
    Local,
    Remote,
}

/// One path of a status view together with its set of status flags,
/// encoded as the backing store's bitmask.
#[derive(Debug, Clone)]
pub struct FileStatus {
    pub file_name: String,
    pub status: u32,
}

/// Workdir diff statistics; all counts are non-negative.
#[derive(Debug, Clone, Copy, PartialEq, Eq, Structural)]
pub struct Stats {
    pub deletions: usize,
    pub insertions: usize,
    pub files_changed: usize,
}

/// One line-oriented diff record. File-header records (`origin == 'F'`)
/// carry no line numbers.
#[derive(Debug, Clone)]
pub struct GitDiff {
    pub diff_content: String,
    pub new_line: Option<u32>,
    pub old_line: Option<u32>,
    pub origin: char,
}

/// One entry of the backing store's status enumeration: the path, its
/// status bitmask, and — when an index-to-head delta exists for it —
/// whether that delta's new file is non-empty.
#[derive(Debug, Clone)]
pub struct StatusEntry {
    pub path: String,
    pub status: u32,
    pub staged_nonempty: Option<bool>,
}

/// One reference advertised by a remote: its full name and the raw bytes of
/// the object identifier it points at.
#[derive(Debug, Clone)]
pub struct RemoteHeadEntry {
    pub name: String,
    pub oid: Vec<u8>,
}

} // verus!
