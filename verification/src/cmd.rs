//! The command surface: every external command acquires the session,
//! performs one operation, and returns either its payload or one error tag.
//! Every command on an empty session fails with `RepoNotFound`.

use vstd::prelude::*;

use crate::diff;
use crate::error::{map_git, GitError};
use crate::external;
use crate::git::{self, Repo};
use crate::state::{FileStatus, GitDiff, MyBranchType, MyState, RemoteHeadEntry, Stats};
use crate::status;
use crate::utils;

verus! {

broadcast use vstd::std_specs::control_flow::group_control_flow_axioms;

/// Opens the repository discovered at or above `path`, replacing any
/// previous session, and returns the repository's object-store path.
pub fn open(state: &mut MyState, path: &str) -> (r: Result<String, GitError>)
    ensures
        r is Ok ==> final(state).repo is Some,
        r is Err ==> r->Err_0 == GitError::RepoNotFound && *final(state) == *old(state),
{
    match Repo::open(path) {
        Ok(repo) => {
            let path_string = external::repository_path_string(&repo.repo);
            state.repo = Some(repo);
            Ok(path_string)
        },
        Err(_) => Err(GitError::RepoNotFound),
    }
}

/// Lists branch names matching the filter, in backing-store enumeration
/// order.
pub fn find_branches(state: &MyState, filter: Option<MyBranchType>) -> (r: Result<
    Vec<String>,
    GitError,
>)
    ensures
        state.repo is None ==> r == Err::<Vec<String>, GitError>(GitError::RepoNotFound),
        r is Err ==> (r->Err_0 == GitError::RepoNotFound || r->Err_0 == GitError::NoBranches),
        r is Err && r->Err_0 is RepoNotFound ==> state.repo is None,
{
    match &state.repo {
        Some(repo) => {
            match external::branch_names(&repo.repo, &filter) {
                Ok(names) => Ok(names),
                Err(_) => Err(GitError::NoBranches),
            }
        },
        None => Err(GitError::RepoNotFound),
    }
}

/// Resolves the symbolic head to its shorthand branch name.
pub fn get_current_branch_name(state: &MyState) -> (r: Result<String, GitError>)
    ensures
        state.repo is None ==> r == Err::<String, GitError>(GitError::RepoNotFound),
        r is Err ==> (r->Err_0 is RepoNotFound || r->Err_0 is Error),
        r is Err && r->Err_0 is RepoNotFound ==> state.repo is None,
{
    match &state.repo {
        Some(repo) => repo.get_current_branch_name(),
        None => Err(GitError::RepoNotFound),
    }
}

/// The repository's short name and root path.
pub fn get_repo_name(state: &MyState) -> (r: Result<(String, String), GitError>)
    ensures
        state.repo is None ==> r == Err::<(String, String), GitError>(GitError::RepoNotFound),
        r is Err ==> (r->Err_0 is RepoNotFound || r->Err_0 is Error),
        r is Err && r->Err_0 is RepoNotFound ==> state.repo is None,
{
    match &state.repo {
        Some(repo) => repo.get_repo_name(),
        None => Err(GitError::RepoNotFound),
    }
}

/// Checks out the named local branch.
pub fn checkout_branch(state: &MyState, branch_name: String) -> (r: Result<(), GitError>)
    ensures
        state.repo is None ==> r == Err::<(), GitError>(GitError::RepoNotFound),
        r is Err ==> (r->Err_0 is RepoNotFound || r->Err_0 is GitCheckoutError || r->Err_0 is Error),
        r is Err && r->Err_0 is RepoNotFound ==> state.repo is None,
{
    match &state.repo {
        Some(repo) => repo.checkout_branch(branch_name.as_str()),
        None => Err(GitError::RepoNotFound),
    }
}

/// Finds the index of the advertised remote head with exactly the given
/// full reference name.
fn find_head(heads: &Vec<RemoteHeadEntry>, name: &str) -> (r: Option<usize>)
    ensures
        match r {
            Some(i) => i < heads@.len() && heads@[i as int].name@ == name@,
            None => forall|i: int| 0 <= i < heads@.len() ==> heads@[i].name@ != name@,
        },
{
    let mut i: usize = 0;
    while i < heads.len()
        invariant
            0 <= i <= heads@.len(),
            forall|j: int| 0 <= j < i ==> heads@[j].name@ != name@,
        decreases heads@.len() - i,
    {
        if utils::str_eq(heads[i].name.as_str(), name) {
            return Some(i);
        }
        i += 1;
    }
    None
}

/// Materializes a remote branch locally: connects to the default remote,
/// locates the exact remote reference, creates the local reference at its
/// commit with upstream tracking, and force-checks-out the working tree.
/// Fails with `RemoteHeadNotFound` when the remote does not advertise the
/// branch.
pub fn checkout_remote_branch(state: &MyState, branch_name: String) -> (r: Result<(), GitError>)
    ensures
        state.repo is None ==> r == Err::<(), GitError>(GitError::RepoNotFound),
        r is Err ==> (r->Err_0 is RepoNotFound || r->Err_0 is RemoteHeadNotFound || r->Err_0 is Error),
        r is Err && r->Err_0 is RepoNotFound ==> state.repo is None,
{
    let repo = match &state.repo {
        Some(repo) => repo,
        None => {
            return Err(GitError::RepoNotFound);
        },
    };
    let mut remote = match external::find_remote(&repo.repo, git::default_remote()) {
        Ok(r) => r,
        Err(_) => map_git(external::remote_anonymous(&repo.repo, git::default_remote()))?,
    };
    let remote_prefix = match external::remote_name(&remote) {
        Some(name) => name.concat("/"),
        None => {
            return Err(GitError::Error(String::from_str("remote has no name")));
        },
    };
    proof {
        reveal_strlit("/");
        assert(remote_prefix@.len() > 0);
    }
    let branch_name_no_origin = utils::remove_all(branch_name.as_str(), remote_prefix.as_str());
    let cb = external::get_remote_callbacks();
    let heads = map_git(external::remote_list_heads(&mut remote, cb))?;
    let remote_ref_name = String::from_str("refs/heads/").concat(branch_name_no_origin.as_str());
    let oid = match find_head(&heads, remote_ref_name.as_str()) {
        Some(i) => heads[i].oid.clone(),
        None => {
            return Err(GitError::RemoteHeadNotFound);
        },
    };
    map_git(
        external::create_tracking_branch(
            &repo.repo,
            remote_ref_name.as_str(),
            &oid,
            branch_name.as_str(),
        ),
    )?;
    map_git(external::set_head(&repo.repo, remote_ref_name.as_str()))?;
    map_git(external::checkout_head_force(&repo.repo))?;
    Ok(())
}

/// Lists the configured remote names.
pub fn get_remotes(state: &MyState) -> (r: Result<Vec<String>, GitError>)
    ensures
        state.repo is None ==> r == Err::<Vec<String>, GitError>(GitError::RepoNotFound),
        r is Err ==> (r->Err_0 is RepoNotFound || r->Err_0 is Error),
        r is Err && r->Err_0 is RepoNotFound ==> state.repo is None,
{
    match &state.repo {
        Some(repo) => {
            let names = map_git(external::remote_names(&repo.repo))?;
            Ok(names)
        },
        None => Err(GitError::RepoNotFound),
    }
}

/// Fetches from the named remote — or from the default one — downloading
/// objects without moving any branch pointer, then updates remote-tracking
/// tips and disconnects. An argument that names no configured remote is
/// treated as a raw URL through an anonymous remote.
pub fn fetch_remote(state: &MyState, remote: Option<String>) -> (r: Result<(), GitError>)
    ensures
        state.repo is None ==> r == Err::<(), GitError>(GitError::RepoNotFound),
        r is Err ==> (r->Err_0 is RepoNotFound || r->Err_0 is Error),
        r is Err && r->Err_0 is RepoNotFound ==> state.repo is None,
{
    let remote_name = match remote {
        Some(name) => name,
        None => String::from_str(git::default_remote()),
    };
    let repo = match &state.repo {
        Some(repo) => repo,
        None => {
            return Err(GitError::RepoNotFound);
        },
    };
    let mut rem = match external::find_remote(&repo.repo, remote_name.as_str()) {
        Ok(r) => r,
        Err(_) => map_git(external::remote_anonymous(&repo.repo, remote_name.as_str()))?,
    };
    let cb = external::fetch_callbacks();
    map_git(external::remote_download_and_update(&mut rem, cb))?;
    Ok(())
}

/// Pushes exactly the refspec of the current branch to the named remote —
/// or to the default one — then updates local remote-tracking tips.
pub fn push_remote(state: &MyState, remote: Option<String>) -> (r: Result<(), GitError>)
    ensures
        state.repo is None ==> r == Err::<(), GitError>(GitError::RepoNotFound),
        r is Err ==> (r->Err_0 is RepoNotFound || r->Err_0 is Error),
        r is Err && r->Err_0 is RepoNotFound ==> state.repo is None,
{
    let remote_name = match remote {
        Some(name) => name,
        None => String::from_str(git::default_remote()),
    };
    let repo = match &state.repo {
        Some(repo) => repo,
        None => {
            return Err(GitError::RepoNotFound);
        },
    };
    let mut rem = match external::find_remote(&repo.repo, remote_name.as_str()) {
        Ok(r) => r,
        Err(_) => map_git(external::remote_anonymous(&repo.repo, remote_name.as_str()))?,
    };
    let head = map_git(external::head_shorthand(&repo.repo))?;
    let refspec = String::from_str("refs/heads/").concat(head.as_str());
    let cb = external::get_remote_callbacks();
    map_git(external::remote_push_refspec(&mut rem, refspec.as_str(), cb))?;
    Ok(())
}

/// Pull: fetches the current branch's upstream from the named remote — or
/// from the default one — then resolves the fetched tip against the head.
pub fn pull_from_remote(state: &MyState, remote: Option<String>) -> (r: Result<(), GitError>)
    ensures
        state.repo is None ==> r == Err::<(), GitError>(GitError::RepoNotFound),
        r is Err ==> (r->Err_0 is RepoNotFound || r->Err_0 is Error),
        r is Err && r->Err_0 is RepoNotFound ==> state.repo is None,
{
    let remote_name = match remote {
        Some(name) => name,
        None => String::from_str(git::default_remote()),
    };
    let repo = match &state.repo {
        Some(repo) => repo,
        None => {
            return Err(GitError::RepoNotFound);
        },
    };
    let remote_branch = repo.get_current_branch_name()?;
    let mut rem = map_git(external::find_remote(&repo.repo, remote_name.as_str()))?;
    let mut refs: Vec<String> = Vec::new();
    refs.push(remote_branch.clone());
    let fetch_commit = git::do_fetch(&repo.repo, &refs, &mut rem)?;
    git::do_merge(&repo.repo, remote_branch.as_str(), fetch_commit)
}

/// The "modified" view: worktree-vs-index state. Every returned path
/// carries at least one worktree flag and denotes an actual file; ignored
/// and directory-only entries never appear.
pub fn get_modified_files(state: &MyState) -> (r: Result<Vec<FileStatus>, GitError>)
    ensures
        state.repo is None ==> r == Err::<Vec<FileStatus>, GitError>(GitError::RepoNotFound),
        r is Err ==> (r->Err_0 is RepoNotFound || r->Err_0 is Error),
        r is Err && r->Err_0 is RepoNotFound ==> state.repo is None,
        r is Ok ==> forall|k: int|
            0 <= k < r->Ok_0@.len() ==> {
                &&& (#[trigger] r->Ok_0@[k]).status & git::INTERESTING != 0
                &&& utils::spec_path_is_file(r->Ok_0@[k].file_name@)
            },
{
    match &state.repo {
        Some(repo) => {
            let entries = map_git(external::status_entries(&repo.repo, true, false))?;
            let files = status::classify(&entries, git::INTERESTING);
            proof {
                status::lemma_classified_paths_are_flagged(entries@, git::INTERESTING);
            }
            Ok(files)
        },
        None => Err(GitError::RepoNotFound),
    }
}

/// The "staged" view: index-vs-head state. Every returned path carries at
/// least one index flag and denotes an actual file. The view is a pure
/// function of the status enumeration: with no intervening change, two
/// queries yield identical sets.
pub fn get_staged_files(state: &MyState) -> (r: Result<Vec<FileStatus>, GitError>)
    ensures
        state.repo is None ==> r == Err::<Vec<FileStatus>, GitError>(GitError::RepoNotFound),
        r is Err ==> (r->Err_0 is RepoNotFound || r->Err_0 is Error),
        r is Err && r->Err_0 is RepoNotFound ==> state.repo is None,
        r is Ok ==> forall|k: int|
            0 <= k < r->Ok_0@.len() ==> {
                &&& (#[trigger] r->Ok_0@[k]).status & git::INTERESTING_STAGED != 0
                &&& utils::spec_path_is_file(r->Ok_0@[k].file_name@)
            },
{
    match &state.repo {
        Some(repo) => {
            let entries = map_git(external::status_entries(&repo.repo, false, false))?;
            let files = status::classify(&entries, git::INTERESTING_STAGED);
            proof {
                status::lemma_classified_paths_are_flagged(entries@, git::INTERESTING_STAGED);
            }
            Ok(files)
        },
        None => Err(GitError::RepoNotFound),
    }
}

/// Workdir diff statistics: insertions, deletions and files changed.
pub fn get_repo_diff(state: &MyState) -> (r: Result<Stats, GitError>)
    ensures
        state.repo is None ==> r == Err::<Stats, GitError>(GitError::RepoNotFound),
        r is Err ==> (r->Err_0 == GitError::RepoNotFound || r->Err_0 == GitError::GetDiffFailed
            || r->Err_0 == GitError::GetStatsFailed),
        r is Err && r->Err_0 is RepoNotFound ==> state.repo is None,
{
    match &state.repo {
        Some(repo) => {
            let diff = match external::diff_index_to_workdir(&repo.repo) {
                Ok(d) => d,
                Err(_) => {
                    return Err(GitError::GetDiffFailed);
                },
            };
            match external::diff_stats(&diff) {
                Ok(stats) => Ok(stats),
                Err(_) => Err(GitError::GetStatsFailed),
            }
        },
        None => Err(GitError::RepoNotFound),
    }
}

/// Stages every change in the working tree into the index.
pub fn add_all(state: &MyState) -> (r: Result<(), GitError>)
    ensures
        state.repo is None ==> r == Err::<(), GitError>(GitError::RepoNotFound),
        r is Err ==> (r->Err_0 is RepoNotFound || r->Err_0 is Error),
        r is Err && r->Err_0 is RepoNotFound ==> state.repo is None,
{
    match &state.repo {
        Some(repo) => {
            let mut specs: Vec<String> = Vec::new();
            specs.push(String::from_str("*"));
            map_git(external::index_add_all(&repo.repo, &specs))?;
            Ok(())
        },
        None => Err(GitError::RepoNotFound),
    }
}

/// The matches one status entry contributes to the staging selection: one
/// copy of its path per requested file it equals, provided it carries a
/// worktree flag.
pub open spec fn spec_entry_matches(
    e: crate::state::StatusEntry,
    files: Seq<String>,
) -> Seq<String>
    decreases files.len(),
{
    if files.len() == 0 {
        Seq::empty()
    } else {
        let rest = spec_entry_matches(e, files.drop_last());
        if e.status & git::INTERESTING != 0 && e.path@ == files.last()@ {
            rest + seq![e.path]
        } else {
            rest
        }
    }
}

/// The staging selection: for each status entry in order, its matches
/// against the requested files.
pub open spec fn spec_files_to_add(
    entries: Seq<crate::state::StatusEntry>,
    files: Seq<String>,
) -> Seq<String>
    decreases entries.len(),
{
    if entries.len() == 0 {
        Seq::empty()
    } else {
        spec_files_to_add(entries.drop_last(), files) + spec_entry_matches(entries.last(), files)
    }
}

/// Selects the paths to stage: the status-enumeration paths that carry a
/// worktree flag and equal one of the requested files.
fn select_files_to_add(entries: &Vec<crate::state::StatusEntry>, files: &Vec<String>) -> (r: Vec<
    String,
>)
    ensures
        r@ == spec_files_to_add(entries@, files@),
{
    let mut r: Vec<String> = Vec::new();
    let mut i: usize = 0;
    proof {
        assert(entries@.take(0) =~= Seq::<crate::state::StatusEntry>::empty());
        assert(r@ =~= spec_files_to_add(entries@.take(0), files@));
    }
    while i < entries.len()
        invariant
            0 <= i <= entries@.len(),
            r@ == spec_files_to_add(entries@.take(i as int), files@),
        decreases entries@.len() - i,
    {
        let ghost r_outer = r@;
        let e = &entries[i];
        let mut j: usize = 0;
        proof {
            assert(files@.take(0) =~= Seq::<String>::empty());
            assert(spec_entry_matches(entries@[i as int], files@.take(0)) =~= Seq::<String>::empty());
        }
        while j < files.len()
            invariant
                0 <= j <= files@.len(),
                i < entries@.len(),
                e == &entries@[i as int],
                r@ == r_outer + spec_entry_matches(entries@[i as int], files@.take(j as int)),
            decreases files@.len() - j,
        {
            let ghost pre = files@.take(j as int);
            if (e.status & git::INTERESTING) != 0 && utils::str_eq(
                e.path.as_str(),
                files[j].as_str(),
            ) {
                r.push(e.path.clone());
            }
            proof {
                assert(files@.take(j + 1).drop_last() =~= pre);
                assert(files@.take(j + 1).last() == files@[j as int]);
            }
            j += 1;
        }
        proof {
            assert(files@.take(files@.len() as int) =~= files@);
            assert(entries@.take(i + 1).drop_last() =~= entries@.take(i as int));
            assert(entries@.take(i + 1).last() == entries@[i as int]);
        }
        i += 1;
    }
    proof {
        assert(entries@.take(entries@.len() as int) =~= entries@);
    }
    r
}

/// Stages exactly the requested files that the status enumeration reports
/// with a worktree flag.
pub fn add(state: &MyState, files: Vec<String>) -> (r: Result<(), GitError>)
    ensures
        state.repo is None ==> r == Err::<(), GitError>(GitError::RepoNotFound),
        r is Err ==> (r->Err_0 is RepoNotFound || r->Err_0 is Error),
        r is Err && r->Err_0 is RepoNotFound ==> state.repo is None,
{
    match &state.repo {
        Some(repo) => {
            let entries = map_git(external::status_entries(&repo.repo, true, true))?;
            let files_to_add = select_files_to_add(&entries, &files);
            map_git(external::index_add_all(&repo.repo, &files_to_add))?;
            Ok(())
        },
        None => Err(GitError::RepoNotFound),
    }
}

/// Discards the given files: restores each one's content in the working
/// tree from the head commit's tree and re-stages it. Fails with
/// `InvalidHead` when the head has no direct target and with
/// `InvalidCommit` when its target is not a commit.
pub fn discard(state: &MyState, files: Vec<String>) -> (r: Result<(), GitError>)
    ensures
        state.repo is None ==> r == Err::<(), GitError>(GitError::RepoNotFound),
        r is Err ==> (r->Err_0 is RepoNotFound || r->Err_0 is InvalidHead || r->Err_0 is InvalidCommit || r->Err_0 is Error),
        r is Err && r->Err_0 is RepoNotFound ==> state.repo is None,
{
    let repo = match &state.repo {
        Some(repo) => repo,
        None => {
            return Err(GitError::RepoNotFound);
        },
    };
    let mut i: usize = 0;
    while i < files.len()
        invariant
            state.repo is Some,
        decreases files@.len() - i,
    {
        let file = &files[i];
        if !utils::is_nul_free(file.as_str()) {
            return Err(GitError::Error(String::from_str("path contains a NUL character")));
        }
        let target = match map_git(external::head_target(&repo.repo))? {
            Some(t) => t,
            None => {
                return Err(GitError::InvalidHead);
            },
        };
        let tree_id = match map_git(external::object_commit_tree_id(&repo.repo, &target))? {
            Some(t) => t,
            None => {
                return Err(GitError::InvalidCommit);
            },
        };
        let entry_id = map_git(external::tree_entry_id(&repo.repo, &tree_id, file.as_str()))?;
        // Looking the blob up validates it before the working tree is touched.
        let _content = map_git(external::blob_content(&repo.repo, &entry_id))?;
        map_git(external::checkout_head_path(&repo.repo, file.as_str()))?;
        map_git(external::index_add_path(&repo.repo, file.as_str()))?;
        i += 1;
    }
    Ok(())
}

/// Reconstructs the repository diff: a tree-vs-workdir diff scoped to the
/// interesting paths, followed by synthetic records for every untracked
/// interesting path that no file-header record of the real diff names.
/// Records of file-header or binary origin carry no line numbers. Reading
/// an untracked file goes through the object database, so this query writes
/// one unreferenced, garbage-collectable loose blob per synthesized file.
pub fn git_diff(state: &MyState) -> (r: Result<Vec<GitDiff>, GitError>)
    ensures
        state.repo is None ==> r == Err::<Vec<GitDiff>, GitError>(GitError::RepoNotFound),
        r is Err ==> (r->Err_0 is RepoNotFound || r->Err_0 is InvalidHead || r->Err_0 is InvalidCommit || r->Err_0 is GetDiffFailed || r->Err_0 is Error),
        r is Err && r->Err_0 is RepoNotFound ==> state.repo is None,
        r is Ok ==> forall|k: int|
            0 <= k < r->Ok_0@.len() ==> (((#[trigger] r->Ok_0@[k]).origin == 'F'
                || r->Ok_0@[k].origin == 'B') ==> (r->Ok_0@[k].old_line is None
                && r->Ok_0@[k].new_line is None)),
{
    let repo = match &state.repo {
        Some(repo) => repo,
        None => {
            return Err(GitError::RepoNotFound);
        },
    };
    let target = match map_git(external::head_target(&repo.repo))? {
        Some(t) => t,
        None => {
            return Err(GitError::InvalidHead);
        },
    };
    let tree_id = match map_git(external::object_commit_tree_id(&repo.repo, &target))? {
        Some(t) => t,
        None => {
            return Err(GitError::InvalidCommit);
        },
    };
    let entries = map_git(external::status_entries(&repo.repo, true, false))?;
    let (pathspecs, files_paths) = diff::select_diff_paths(&entries);
    proof {
        diff::lemma_selected_paths_from_entries(entries@);
    }
    let mut opts = external::diff_options_new();
    let mut i: usize = 0;
    while i < pathspecs.len()
        invariant
            state.repo is Some,
            pathspecs@ == diff::spec_diff_pathspecs(entries@),
            forall|j: int|
                0 <= j < entries@.len() ==> utils::nul_free((#[trigger] entries@[j]).path@),
            forall|k: int|
                0 <= k < pathspecs@.len() ==> exists|j: int|
                    0 <= j < entries@.len() && #[trigger] pathspecs@[k] == entries@[j].path,
        decreases pathspecs@.len() - i,
    {
        proof {
            let j = choose|j: int|
                0 <= j < entries@.len() && pathspecs@[i as int] == entries@[j].path;
            assert(utils::nul_free(entries@[j].path@));
        }
        external::diff_options_add_pathspec(&mut opts, pathspecs[i].as_str());
        i += 1;
    }
    let real_diff = map_git(external::diff_tree_to_workdir_with_index(
        &repo.repo,
        &tree_id,
        &mut opts,
    ))?;
    let mut lines = map_git(external::diff_patch_records(&real_diff))?;
    let remaining = diff::remaining_candidates(&lines, &files_paths);
    let mut k: usize = 0;
    while k < remaining.len()
        invariant
            state.repo is Some,
            forall|m: int|
                0 <= m < lines@.len() ==> (((#[trigger] lines@[m]).origin == 'F'
                    || lines@[m].origin == 'B') ==> (lines@[m].old_line is None
                    && lines@[m].new_line is None)),
        decreases remaining@.len() - k,
    {
        let path = &remaining[k];
        let abs_path = utils::get_absolute_path_from_relative(repo, path.as_str());
        let blob_oid = map_git(external::workdir_blob_oid(&repo.repo, abs_path.as_str()))?;
        let content_bytes = map_git(external::blob_content(&repo.repo, &blob_oid))?;
        let content = external::bytes_to_string_lossy(&content_bytes);
        let file_lines = utils::split_lines(content.as_str());
        if file_lines.len() > u32::MAX as usize {
            return Err(GitError::GetDiffFailed);
        }
        let mut synth = diff::synthetic_records(path.as_str(), &file_lines);
        let ghost lines_old = lines@;
        let ghost synth_view = synth@;
        lines.append(&mut synth);
        proof {
            assert forall|m: int| 0 <= m < lines@.len() implies (((#[trigger] lines@[m]).origin
                == 'F' || lines@[m].origin == 'B') ==> (lines@[m].old_line is None
                && lines@[m].new_line is None)) by {
                if m < lines_old.len() {
                    assert(lines@[m] == lines_old[m]);
                } else {
                    let j = m - lines_old.len();
                    assert(lines@[m] == synth_view[j]);
                    if j > 0 {
                        assert(synth_view[(j - 1) + 1].origin == '+');
                    }
                }
            }
        }
        k += 1;
    }
    Ok(lines)
}

/// Whether a commit request finds nothing to commit: the tree written from
/// the index is the head commit's own tree.
pub fn commit_is_noop(tree_id: &Vec<u8>, head_tree_id: &Vec<u8>) -> (r: bool)
    ensures
        r == (tree_id@ == head_tree_id@),
{
    utils::bytes_eq(tree_id, head_tree_id)
}

/// Whether the branch reference must be retargeted after a commit was
/// written: only when the new commit's identity differs from the head's.
pub fn retarget_needed(new_id: &Vec<u8>, head_id: &Vec<u8>) -> (r: bool)
    ensures
        r == (new_id@ != head_id@),
{
    !utils::bytes_eq(new_id, head_id)
}

/// Writes the current index as a commit with the head commit as single
/// parent, through the two-step build-buffer-then-finalize path. Against an
/// unchanged index — the index tree equals the head commit's tree — no
/// commit object is created and the head keeps its identifier. When the new
/// commit's identity equals the head's, the branch reference is likewise
/// left untouched.
pub fn commit(state: &MyState, message: String) -> (r: Result<(), GitError>)
    ensures
        state.repo is None ==> r == Err::<(), GitError>(GitError::RepoNotFound),
        r is Err ==> (r->Err_0 is RepoNotFound || r->Err_0 is Error),
        r is Err && r->Err_0 is RepoNotFound ==> state.repo is None,
{
    let repo = match &state.repo {
        Some(repo) => repo,
        None => {
            return Err(GitError::RepoNotFound);
        },
    };
    let tree_id = map_git(external::repo_index_write_tree(&repo.repo))?;
    let parent_id = map_git(external::head_commit_id(&repo.repo))?;
    let head_tree_id = map_git(external::commit_tree_id(&repo.repo, &parent_id))?;
    if commit_is_noop(&tree_id, &head_tree_id) {
        return Ok(());
    }
    let buffer = map_git(external::commit_buffer(
        &repo.repo,
        message.as_str(),
        &tree_id,
        &parent_id,
    ))?;
    let new_id = map_git(external::commit_signed_from_buffer(&repo.repo, &buffer))?;
    if !retarget_needed(&new_id, &parent_id) {
        return Ok(());
    }
    map_git(external::retarget_head(&repo.repo, &new_id))?;
    Ok(())
}

/// Resolves the current branch and its default-remote counterpart and
/// counts the commits of one tip's ancestor set that the other tip's
/// ancestor set lacks, in a single forward traversal.
fn pending_commits(repo: &Repo, count_local_side: bool) -> (r: Result<u32, GitError>)
    ensures
        r is Err ==> r->Err_0 is Error,
{
    let branch_name = repo.get_current_branch_name()?;
    let local_oid = map_git(external::revparse_single_id(&repo.repo, branch_name.as_str()))?;
    let remote_spec = String::from_str(git::default_remote()).concat("/").concat(
        branch_name.as_str(),
    );
    let remote_oid = map_git(external::revparse_single_id(&repo.repo, remote_spec.as_str()))?;
    let count = if count_local_side {
        map_git(external::revwalk_count_exclusive(&repo.repo, &local_oid, &remote_oid))?
    } else {
        map_git(external::revwalk_count_exclusive(&repo.repo, &remote_oid, &local_oid))?
    };
    Ok(#[verifier::truncate] (count as u32))
}

/// How many commits the local branch is ahead of its default-remote
/// counterpart: the size of `ancestors(local) \ ancestors(remote)`.
pub fn get_pending_commits_to_push(state: &MyState) -> (r: Result<u32, GitError>)
    ensures
        state.repo is None ==> r == Err::<u32, GitError>(GitError::RepoNotFound),
        r is Err ==> (r->Err_0 is RepoNotFound || r->Err_0 is Error),
        r is Err && r->Err_0 is RepoNotFound ==> state.repo is None,
{
    match &state.repo {
        Some(repo) => pending_commits(repo, true),
        None => Err(GitError::RepoNotFound),
    }
}

/// How many commits the local branch is behind its default-remote
/// counterpart: the size of `ancestors(remote) \ ancestors(local)`.
pub fn get_pending_commits_to_pull(state: &MyState) -> (r: Result<u32, GitError>)
    ensures
        state.repo is None ==> r == Err::<u32, GitError>(GitError::RepoNotFound),
        r is Err ==> (r->Err_0 is RepoNotFound || r->Err_0 is Error),
        r is Err && r->Err_0 is RepoNotFound ==> state.repo is None,
{
    match &state.repo {
        Some(repo) => pending_commits(repo, false),
        None => Err(GitError::RepoNotFound),
    }
}

} // verus!
