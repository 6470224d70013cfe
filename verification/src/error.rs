//! Error taxonomy of the engine. Every failure of the backing library is
//! translated at the boundary into one of these tags, carrying the original
//! diagnostic text; the caller always receives a structured result.

use vstd::prelude::*;

verus! {

/// One error tag per failure class of a repository operation.
#[derive(Debug, Clone)]
pub enum GitError {
    /// No open session, or no repository was found at or above the given path.
    RepoNotFound,
    /// Branch enumeration failed.
    NoBranches,
    /// The requested branch could not be checked out.
    GitCheckoutError,
    /// The workdir diff could not be computed.
    GetDiffFailed,
    /// The workdir diff statistics could not be computed.
    GetStatsFailed,
    /// A backing-library failure, wrapping its diagnostic text.
    Error(String),
    /// The requested branch does not exist on the remote.
    RemoteHeadNotFound,
    /// The head reference does not point at a commit.
    InvalidHead,
    /// An object expected to be a commit is not one.
    InvalidCommit,
}

/// Failures of the key-value settings store.
#[derive(Debug, Clone)]
pub enum SledError {
    /// A store failure, wrapping its diagnostic text.
    SledError(String),
    /// A value could not be inserted.
    SledCantInsert,
}

/// Translates a backing-library error into the wrapping tag.
pub fn from_git(e: git2::Error) -> (r: GitError)
    ensures
        r is Error,
{
    GitError::Error(crate::external::error_message(&e))
}

/// Translates a whole backing-library result, keeping the success value.
pub fn map_git<T>(r: Result<T, git2::Error>) -> (res: Result<T, GitError>)
    ensures
        match r {
            Ok(v) => res == Result::<T, GitError>::Ok(v),
            Err(_) => res is Err && res->Err_0 is Error,
        },
{
    match r {
        Ok(v) => Ok(v),
        Err(e) => Err(from_git(e)),
    }
}

} // verus!
