//! The repository handle and its session-level operations.

use vstd::prelude::*;

use crate::error::{from_git, map_git, GitError};
use crate::external;
use crate::utils;

verus! {

broadcast use vstd::std_specs::control_flow::group_control_flow_axioms;

/// Worktree-vs-index status flags, as the backing store encodes them.
pub const WT_NEW: u32 = 128;

pub const WT_MODIFIED: u32 = 256;

pub const WT_DELETED: u32 = 512;

pub const CONFLICTED: u32 = 32768;

/// Index-vs-head status flags, as the backing store encodes them.
pub const INDEX_NEW: u32 = 1;

pub const INDEX_MODIFIED: u32 = 2;

pub const INDEX_DELETED: u32 = 4;

pub const INDEX_RENAMED: u32 = 8;

pub const INDEX_TYPECHANGE: u32 = 16;

/// The flags of the "modified" (worktree) view.
pub const INTERESTING: u32 = WT_NEW | CONFLICTED | WT_MODIFIED | WT_DELETED;

/// The flags of the "staged" (index) view.
pub const INTERESTING_STAGED: u32 = INDEX_DELETED | INDEX_MODIFIED | INDEX_NEW | INDEX_RENAMED
    | INDEX_TYPECHANGE;

/// The remote used when a command names none.
pub fn default_remote() -> (r: &'static str)
    ensures
        r@ == "origin"@,
{
    "origin"
}

/// What one merge analysis allows: a fast-forward (which takes precedence),
/// a normal three-way merge, or nothing calling for action.
#[derive(Debug, Clone, Copy, PartialEq, Eq, Structural)]
pub enum MergeAnalysisKind {
    FastForward,
    Normal,
    Other,
}

/// The action a merge resolution takes.
#[derive(Debug, Clone, Copy, PartialEq, Eq, Structural)]
pub enum MergeCourse {
    /// Retarget the existing local branch reference and check it out.
    FastForwardExisting,
    /// No local branch reference exists (first pull into an empty
    /// repository): create it at the fetched commit and check it out.
    CreateBranch,
    /// Merge the two trees against their base.
    ThreeWay,
    /// Up to date, or nothing to do.
    NoOp,
}

/// The course a merge resolution takes for one analysis outcome.
pub open spec fn spec_merge_course(analysis: MergeAnalysisKind, local_ref_exists: bool) -> MergeCourse {
    match analysis {
        MergeAnalysisKind::FastForward => {
            if local_ref_exists {
                MergeCourse::FastForwardExisting
            } else {
                MergeCourse::CreateBranch
            }
        },
        MergeAnalysisKind::Normal => MergeCourse::ThreeWay,
        MergeAnalysisKind::Other => MergeCourse::NoOp,
    }
}

/// A fast-forward pull into a branchless repository — the analysis allows a
/// fast-forward and no local branch reference exists — takes the course
/// that creates the local branch reference at the fetched commit and checks
/// the working tree out to match it.
pub proof fn lemma_branchless_fast_forward_creates_ref()
    ensures
        spec_merge_course(MergeAnalysisKind::FastForward, false) == MergeCourse::CreateBranch,
{
}

/// Decides the merge course from the analysis outcome and whether the local
/// branch reference exists. A fast-forward into a repository without the
/// branch reference creates that reference at the fetched commit.
pub fn merge_course(analysis: MergeAnalysisKind, local_ref_exists: bool) -> (r: MergeCourse)
    ensures
        r == spec_merge_course(analysis, local_ref_exists),
{
    match analysis {
        MergeAnalysisKind::FastForward => {
            if local_ref_exists {
                MergeCourse::FastForwardExisting
            } else {
                MergeCourse::CreateBranch
            }
        },
        MergeAnalysisKind::Normal => MergeCourse::ThreeWay,
        MergeAnalysisKind::Other => MergeCourse::NoOp,
    }
}

/// The one open repository of a session.
pub struct Repo {
    pub repo: git2::Repository,
}

impl Repo {
    /// Wraps an already-open repository.
    pub fn new(repo: git2::Repository) -> Self {
        Repo { repo }
    }

    /// Discovers and opens the repository at or above `path`; any failure is
    /// reported as `RepoNotFound`.
    pub fn open(path: &str) -> (r: Result<Self, GitError>)
        ensures
            r is Err ==> r->Err_0 == GitError::RepoNotFound,
    {
        match external::discover_repository(path) {
            Ok(repo) => Ok(Repo { repo }),
            Err(_) => Err(GitError::RepoNotFound),
        }
    }

    /// Resolves the symbolic head to its shorthand branch name. On an unborn
    /// head (an empty repository) the name is read from the head reference's
    /// symbolic target instead.
    pub fn get_current_branch_name(&self) -> (r: Result<String, GitError>)
        ensures
            r is Err ==> r->Err_0 is Error,
    {
        match external::head_shorthand(&self.repo) {
            Ok(name) => Ok(name),
            Err(e) => {
                match external::head_symbolic_target(&self.repo) {
                    Some(target) => Ok(utils::strip_prefix_str(target.as_str(), "refs/heads/")),
                    None => Err(from_git(e)),
                }
            },
        }
    }

    /// The repository's short name and root path, derived from its
    /// object-store path as `repo_name_parts` states.
    pub fn get_repo_name(&self) -> (r: Result<(String, String), GitError>)
        ensures
            r is Err ==> r->Err_0 is Error,
    {
        let path_name = external::repository_path_string(&self.repo);
        match utils::repo_name_parts(path_name.as_str()) {
            Some(parts) => Ok(parts),
            None => Err(GitError::Error(String::from_str("repository path has too few segments"))),
        }
    }

    /// Checks out the named branch: a local branch of that name is tried
    /// first; when none exists, a remote-tracking branch of the same name is
    /// materialized — its local reference created or updated at its commit,
    /// upstream tracking set, the working tree force-checked-out. When
    /// neither resolves, fails with `GitCheckoutError`.
    pub fn checkout_branch(&self, branch_name: &str) -> (r: Result<(), GitError>)
        ensures
            r is Err ==> (r->Err_0 is GitCheckoutError || r->Err_0 is Error),
    {
        match external::local_branch_ref_name(&self.repo, branch_name) {
            Some(ref_name) => {
                match external::set_head(&self.repo, ref_name.as_str()) {
                    Ok(u) => Ok(u),
                    Err(e) => Err(from_git(e)),
                }
            },
            None => self.checkout_tracked_remote_branch(branch_name),
        }
    }

    /// Materializes a remote-tracking branch as a local branch: drops the
    /// remote segment from its name, creates or updates the local reference
    /// at the tracked commit with upstream tracking, sets the head to it and
    /// force-checks-out the working tree.
    fn checkout_tracked_remote_branch(&self, branch_name: &str) -> (r: Result<(), GitError>)
        ensures
            r is Err ==> (r->Err_0 is GitCheckoutError || r->Err_0 is Error),
    {
        match external::find_remote_branch_oid(&self.repo, branch_name) {
            Some(oid) => {
                let short_name = utils::after_first(branch_name, '/');
                let refname = String::from_str("refs/heads/").concat(short_name.as_str());
                match external::create_tracking_branch(
                    &self.repo,
                    refname.as_str(),
                    &oid,
                    branch_name,
                ) {
                    Ok(u) => u,
                    Err(e) => {
                        return Err(from_git(e));
                    },
                };
                match external::set_head(&self.repo, refname.as_str()) {
                    Ok(u) => u,
                    Err(e) => {
                        return Err(from_git(e));
                    },
                };
                match external::checkout_head_force(&self.repo) {
                    Ok(u) => Ok(u),
                    Err(e) => Err(from_git(e)),
                }
            },
            None => Err(GitError::GitCheckoutError),
        }
    }
}

/// Fetches the given refs from the remote, negotiating credentials through
/// the configured provider chain and reporting transfer progress on the
/// side channel, and returns the commit that the fetch wrote to
/// `FETCH_HEAD`.
pub fn do_fetch<'a, 'b>(
    repo: &'a git2::Repository,
    refs: &Vec<String>,
    remote: &mut git2::Remote<'b>,
) -> (r: Result<git2::AnnotatedCommit<'a>, GitError>)
    ensures
        r is Err ==> r->Err_0 is Error,
{
    let cb = external::fetch_callbacks();
    map_git(external::remote_fetch_refs(remote, refs, cb))?;
    let fetch_commit = map_git(external::fetch_annotated_commit(repo))?;
    Ok(fetch_commit)
}

/// Fast-forward: retargets the named reference to the fetched commit, sets
/// the head to it, and force-checks-out the working tree to match.
pub fn fast_forward(
    repo: &git2::Repository,
    refname: &str,
    fetch_commit: &git2::AnnotatedCommit<'_>,
) -> (r: Result<(), GitError>)
    ensures
        r is Err ==> r->Err_0 is Error,
{
    let id = external::annotated_commit_id(fetch_commit);
    map_git(external::set_reference_target(repo, refname, &id))?;
    map_git(external::set_head(repo, refname))?;
    map_git(external::checkout_head_force(repo))?;
    Ok(())
}

/// Three-way merge: merges the trees of the two tips against their merge
/// base. A conflicted result is checked out into the working tree and left
/// for the user — no merge commit is produced. A clean result is written as
/// a tree, committed with both tips as parents, and checked out.
pub fn normal_merge(
    repo: &git2::Repository,
    local: &git2::AnnotatedCommit<'_>,
    remote: &git2::AnnotatedCommit<'_>,
) -> (r: Result<(), GitError>)
    ensures
        r is Err ==> r->Err_0 is Error,
{
    let local_id = external::annotated_commit_id(local);
    let remote_id = external::annotated_commit_id(remote);
    let local_tree = map_git(external::commit_tree_id(repo, &local_id))?;
    let remote_tree = map_git(external::commit_tree_id(repo, &remote_id))?;
    let base = map_git(external::merge_base(repo, &local_id, &remote_id))?;
    let ancestor_tree = map_git(external::commit_tree_id(repo, &base))?;
    let mut idx = map_git(external::merge_trees(repo, &ancestor_tree, &local_tree, &remote_tree))?;
    if external::index_has_conflicts(&idx) {
        map_git(external::checkout_index_into_worktree(repo, &mut idx))?;
        return Ok(());
    }
    let result_tree = map_git(external::index_write_tree_to(&mut idx, repo))?;
    map_git(external::create_merge_commit_on_head(repo, &result_tree, &local_id, &remote_id))?;
    map_git(external::checkout_head_default(repo))?;
    Ok(())
}

/// Resolves one fetched tip against the current head, taking the course
/// that `spec_merge_course` states for the analysis outcome.
pub fn do_merge<'a>(
    repo: &'a git2::Repository,
    remote_branch: &str,
    fetch_commit: git2::AnnotatedCommit<'a>,
) -> (r: Result<(), GitError>)
    ensures
        r is Err ==> r->Err_0 is Error,
{
    let analysis = map_git(external::merge_analysis_info(repo, &fetch_commit))?;
    let refname = String::from_str("refs/heads/").concat(remote_branch);
    let local_ref_exists = external::reference_exists(repo, refname.as_str());
    match merge_course(analysis, local_ref_exists) {
        MergeCourse::FastForwardExisting => fast_forward(repo, refname.as_str(), &fetch_commit),
        MergeCourse::CreateBranch => {
            let id = external::annotated_commit_id(&fetch_commit);
            map_git(external::create_reference(repo, refname.as_str(), &id))?;
            map_git(external::set_head(repo, refname.as_str()))?;
            map_git(external::checkout_head_merge(repo))?;
            Ok(())
        },
        MergeCourse::ThreeWay => {
            let head_commit = map_git(external::head_annotated_commit(repo))?;
            normal_merge(repo, &head_commit, &fetch_commit)
        },
        MergeCourse::NoOp => Ok(()),
    }
}

} // verus!
