//! The trusted boundary to libgit2.
//!
//! Every item in this module is believed, not verified: the type
//! declarations make `git2`'s types nameable, and each wrapper performs one
//! libgit2 operation, converting between the crate's plain values and
//! `git2`'s types. A wrapper's contract states only what the `git2` source
//! or documentation plainly shows.

use std::io::Write;
use vstd::prelude::*;

verus! {

#[verifier::external_type_specification]
#[verifier::external_body]
pub struct ExRepository(git2::Repository);

#[verifier::external_type_specification]
#[verifier::external_body]
pub struct ExGitError(git2::Error);

#[verifier::external_type_specification]
#[verifier::external_body]
pub struct ExRemote<'repo>(git2::Remote<'repo>);

#[verifier::external_type_specification]
#[verifier::external_body]
pub struct ExRemoteCallbacks<'a>(git2::RemoteCallbacks<'a>);

#[verifier::external_type_specification]
#[verifier::external_body]
pub struct ExAnnotatedCommit<'repo>(git2::AnnotatedCommit<'repo>);

#[verifier::external_type_specification]
#[verifier::external_body]
pub struct ExIndex(git2::Index);

#[verifier::external_type_specification]
#[verifier::external_body]
pub struct ExDiffOptions(git2::DiffOptions);

#[verifier::external_type_specification]
#[verifier::external_body]
pub struct ExDiff<'repo>(git2::Diff<'repo>);

/// Relies on git2::Error::message: the diagnostic text of the error.
#[verifier::external_body]
pub(crate) fn error_message(e: &git2::Error) -> String {
    format!("{:#?}", e.message())
}

/// Relies on git2::Repository::discover: walks upward from `path` and opens
/// the first repository found, failing if there is none.
#[verifier::external_body]
pub(crate) fn discover_repository(path: &str) -> Result<git2::Repository, git2::Error> {
    git2::Repository::discover(path)
}

/// Relies on git2::Repository::path: the path of the repository's `.git`
/// directory.
#[verifier::external_body]
pub(crate) fn repository_path_string(repo: &git2::Repository) -> String {
    repo.path().to_string_lossy().into_owned()
}

/// Relies on git2::Repository::head and git2::Reference::shorthand: the
/// shorthand name of the resolved head reference; fails on an unborn head.
#[verifier::external_body]
pub(crate) fn head_shorthand(repo: &git2::Repository) -> Result<String, git2::Error> {
    let head = repo.head()?;
    Ok(head.shorthand()?.to_string())
}

/// Relies on git2::Repository::find_reference and
/// git2::Reference::symbolic_target: the symbolic target of the head
/// reference, available even when the head is unborn.
#[verifier::external_body]
pub(crate) fn head_symbolic_target(repo: &git2::Repository) -> Option<String> {
    let head = repo.find_reference("HEAD").ok()?;
    Some(head.symbolic_target().ok()??.to_string())
}

/// Relies on git2::Repository::find_branch, git2::Reference::is_branch and
/// git2::Reference::name: the full reference name of the named local branch,
/// or `None` when it does not exist, is not a branch, or has no valid name.
#[verifier::external_body]
pub(crate) fn local_branch_ref_name(repo: &git2::Repository, name: &str) -> Option<String> {
    let branch = repo.find_branch(name, git2::BranchType::Local).ok()?;
    if !branch.get().is_branch() {
        return None;
    }
    Some(branch.get().name().ok()?.to_string())
}

/// Relies on git2::Repository::find_branch with the remote branch type and
/// git2::Reference::target: the 20 raw bytes of the commit a remote-tracking
/// branch points at, or `None` when no such branch exists or it has no
/// direct target.
#[verifier::external_body]
pub(crate) fn find_remote_branch_oid(repo: &git2::Repository, name: &str) -> (r: Option<Vec<u8>>)
    ensures
        r is Some ==> r->0@.len() == 20,
{
    let branch = repo.find_branch(name, git2::BranchType::Remote).ok()?;
    Some(branch.get().target()?.as_bytes().to_vec())
}

/// Relies on git2::Repository::set_head: points the head at the named
/// reference.
#[verifier::external_body]
pub(crate) fn set_head(repo: &git2::Repository, refname: &str) -> Result<(), git2::Error> {
    repo.set_head(refname)
}

/// Relies on git2::Repository::branches and git2::Branch::name_bytes: the
/// branch names matching the filter, in backing-store enumeration order.
#[verifier::external_body]
pub(crate) fn branch_names(
    repo: &git2::Repository,
    filter: &Option<crate::state::MyBranchType>,
) -> Result<Vec<String>, git2::Error> {
    let kind = match filter {
        Some(crate::state::MyBranchType::Local) => Some(git2::BranchType::Local),
        Some(crate::state::MyBranchType::Remote) => Some(git2::BranchType::Remote),
        None => None,
    };
    let branches = repo.branches(kind)?;
    Ok(branches
        .filter_map(|b| {
            let (branch, _) = b.ok()?;
            let name = branch.name_bytes().ok()?;
            Some(String::from_utf8_lossy(name).into_owned())
        })
        .collect())
}

/// Relies on git2::Repository::remotes: the configured remote names, in
/// backing-store order; entries without a valid name are skipped.
#[verifier::external_body]
pub(crate) fn remote_names(repo: &git2::Repository) -> Result<Vec<String>, git2::Error> {
    let remotes = repo.remotes()?;
    Ok(remotes.iter().filter_map(|r| Some(r.ok()??.to_owned())).collect())
}

/// Relies on git2::Repository::statuses: one entry per path of the status
/// enumeration, ignored paths excluded and untracked ones included — and
/// untracked directories walked — only on request, each converted to its
/// path, its raw status bits, and — when an index-to-head delta exists —
/// whether that delta's new file is non-empty. Paths are decoded from
/// NUL-terminated strings, so none contains a NUL character.
#[verifier::external_body]
pub(crate) fn status_entries(
    repo: &git2::Repository,
    include_untracked: bool,
    recurse_untracked: bool,
) -> (r: Result<Vec<crate::state::StatusEntry>, git2::Error>)
    ensures
        r is Ok ==> forall|i: int|
            0 <= i < r->Ok_0@.len() ==> crate::utils::nul_free(
                (#[trigger] r->Ok_0@[i]).path@,
            ),
{
    let mut opts = git2::StatusOptions::new();
    opts.include_ignored(false)
        .include_untracked(include_untracked)
        .recurse_untracked_dirs(recurse_untracked);
    let statuses = repo.statuses(Some(&mut opts))?;
    Ok(statuses
        .iter()
        .map(|entry| crate::state::StatusEntry {
            path: String::from_utf8_lossy(entry.path_bytes()).into_owned(),
            status: entry.status().bits(),
            staged_nonempty: entry.head_to_index().map(|d| d.new_file().size() != 0),
        })
        .collect())
}

/// Relies on git2::Repository::find_remote: looks up a configured remote by
/// name.
#[verifier::external_body]
pub(crate) fn find_remote<'repo>(
    repo: &'repo git2::Repository,
    name: &str,
) -> Result<git2::Remote<'repo>, git2::Error> {
    repo.find_remote(name)
}

/// Relies on git2::Repository::remote_anonymous: creates an unnamed remote
/// for a raw URL.
#[verifier::external_body]
pub(crate) fn remote_anonymous<'repo>(
    repo: &'repo git2::Repository,
    url: &str,
) -> Result<git2::Remote<'repo>, git2::Error> {
    repo.remote_anonymous(url)
}

/// Relies on git2::Remote::name: the remote's configured name, if it has
/// one that is valid text.
#[verifier::external_body]
pub(crate) fn remote_name(remote: &git2::Remote<'_>) -> Option<String> {
    Some(remote.name().ok()??.to_string())
}

/// Relies on git2::RemoteCallbacks and git2_credentials::CredentialHandler:
/// callbacks whose credential negotiation tries the configured provider
/// chain per challenge until one succeeds or all are exhausted. When no
/// default configuration can be opened, the callbacks carry no credential
/// provider and the transport decides whether anonymous access suffices.
#[verifier::external_body]
pub fn get_remote_callbacks() -> git2::RemoteCallbacks<'static> {
    let mut cb = git2::RemoteCallbacks::new();
    if let Ok(git_config) = git2::Config::open_default() {
        let mut ch = git2_credentials::CredentialHandler::new(git_config);
        cb.credentials(move |url, username, allowed| ch.try_next_credential(url, username, allowed));
    }
    cb
}

/// Relies on git2::RemoteCallbacks::transfer_progress, on top of
/// `get_remote_callbacks`: the same credential chain, plus transfer
/// progress — objects received and total, deltas resolved, bytes — written
/// to the standard output as a side channel, never returned as data.
#[verifier::external_body]
pub(crate) fn fetch_callbacks() -> git2::RemoteCallbacks<'static> {
    let mut cb = get_remote_callbacks();
    cb.transfer_progress(|stats| {
        let mut out = std::io::stdout();
        let _ = write!(
            out,
            "Received {}/{} objects ({} deltas) in {} bytes\r",
            stats.received_objects(),
            stats.total_objects(),
            stats.indexed_deltas(),
            stats.received_bytes(),
        );
        let _ = out.flush();
        true
    });
    cb
}

/// Relies on git2::Remote::download, disconnect and update_tips: downloads
/// the remote's objects without moving any branch pointer, disconnects, and
/// then updates the remote-tracking tips, with tag following left
/// unspecified — the repository's configured default applies.
#[verifier::external_body]
pub(crate) fn remote_download_and_update(
    remote: &mut git2::Remote<'_>,
    cb: git2::RemoteCallbacks<'static>,
) -> Result<(), git2::Error> {
    let mut fo = git2::FetchOptions::new();
    fo.remote_callbacks(cb);
    remote.download(&[] as &[String], Some(&mut fo))?;
    remote.disconnect()?;
    remote.update_tips(
        None,
        git2::RemoteUpdateFlags::UPDATE_FETCHHEAD,
        git2::AutotagOption::Unspecified,
        None,
    )
}

/// Relies on git2::Remote::fetch: downloads and updates tips for the given
/// refspecs, fetching all tags.
#[verifier::external_body]
pub(crate) fn remote_fetch_refs(
    remote: &mut git2::Remote<'_>,
    refs: &Vec<String>,
    cb: git2::RemoteCallbacks<'static>,
) -> Result<(), git2::Error> {
    let mut fo = git2::FetchOptions::new();
    fo.remote_callbacks(cb);
    fo.download_tags(git2::AutotagOption::All);
    remote.fetch(refs.as_slice(), Some(&mut fo), None)
}

/// Relies on git2::Remote::connect_auth, push, disconnect and update_tips:
/// connects over a push channel, pushes exactly the given refspec, then
/// updates the local remote-tracking tips.
#[verifier::external_body]
pub(crate) fn remote_push_refspec(
    remote: &mut git2::Remote<'_>,
    refspec: &str,
    cb: git2::RemoteCallbacks<'static>,
) -> Result<(), git2::Error> {
    let mut conn = remote.connect_auth(git2::Direction::Push, Some(cb), None)?;
    let mut push_options = git2::PushOptions::new();
    conn.remote().push(&[refspec], Some(&mut push_options))?;
    conn.remote().disconnect()?;
    conn.remote().update_tips(
        None,
        git2::RemoteUpdateFlags::UPDATE_FETCHHEAD,
        git2::AutotagOption::Unspecified,
        None,
    )
}

/// Relies on git2::Remote::connect_auth and list: connects for fetching and
/// returns the advertised references, each as its full name and the 20 raw
/// bytes of its object identifier. The name accessor aborts on a remote
/// that advertises a name that is not valid text (the backing library
/// offers no byte-level accessor for it).
#[verifier::external_body]
pub(crate) fn remote_list_heads(
    remote: &mut git2::Remote<'_>,
    cb: git2::RemoteCallbacks<'static>,
) -> Result<Vec<crate::state::RemoteHeadEntry>, git2::Error> {
    let conn = remote.connect_auth(git2::Direction::Fetch, Some(cb), None)?;
    Ok(conn
        .list()?
        .iter()
        .map(|head| crate::state::RemoteHeadEntry {
            name: head.name().to_string(),
            oid: head.oid().as_bytes().to_vec(),
        })
        .collect())
}

/// Relies on git2::Repository::find_reference and
/// reference_to_annotated_commit: the commit that the last fetch wrote to
/// `FETCH_HEAD`.
#[verifier::external_body]
pub(crate) fn fetch_annotated_commit<'repo>(
    repo: &'repo git2::Repository,
) -> Result<git2::AnnotatedCommit<'repo>, git2::Error> {
    let fetch_head = repo.find_reference("FETCH_HEAD")?;
    repo.reference_to_annotated_commit(&fetch_head)
}

/// Relies on git2::Repository::head and reference_to_annotated_commit: the
/// commit the head currently points at.
#[verifier::external_body]
pub(crate) fn head_annotated_commit<'repo>(
    repo: &'repo git2::Repository,
) -> Result<git2::AnnotatedCommit<'repo>, git2::Error> {
    repo.reference_to_annotated_commit(&repo.head()?)
}

/// Relies on git2::AnnotatedCommit::id and git2::Oid::as_bytes: the 20 raw
/// bytes of the commit's identifier.
#[verifier::external_body]
pub(crate) fn annotated_commit_id(commit: &git2::AnnotatedCommit<'_>) -> (r: Vec<u8>)
    ensures
        r@.len() == 20,
{
    commit.id().as_bytes().to_vec()
}

/// Relies on git2::Repository::find_reference: whether a reference of that
/// name can be looked up.
#[verifier::external_body]
pub(crate) fn reference_exists(repo: &git2::Repository, refname: &str) -> bool {
    repo.find_reference(refname).is_ok()
}

/// Relies on git2::Repository::find_reference and
/// git2::Reference::set_target: retargets an existing reference to the
/// given commit.
#[verifier::external_body]
pub(crate) fn set_reference_target(
    repo: &git2::Repository,
    refname: &str,
    oid: &Vec<u8>,
) -> Result<(), git2::Error> {
    let oid = git2::Oid::from_bytes(oid.as_slice())?;
    let mut reference = repo.find_reference(refname)?;
    let msg = format!("Fast-Forward: Setting {} to id: {}", refname, oid);
    reference.set_target(oid, &msg)?;
    Ok(())
}

/// Relies on git2::Repository::reference: creates or force-updates a
/// reference pointing at the given commit.
#[verifier::external_body]
pub(crate) fn create_reference(
    repo: &git2::Repository,
    refname: &str,
    oid: &Vec<u8>,
) -> Result<(), git2::Error> {
    let oid = git2::Oid::from_bytes(oid.as_slice())?;
    let msg = format!("Setting {} to {}", refname, oid);
    repo.reference(refname, oid, true, &msg)?;
    Ok(())
}

/// Relies on git2::Repository::reference, git2::Reference::set_target,
/// git2::Branch::wrap and set_upstream: creates or updates the local branch
/// reference at the given commit and sets its upstream tracking branch.
#[verifier::external_body]
pub(crate) fn create_tracking_branch(
    repo: &git2::Repository,
    refname: &str,
    oid: &Vec<u8>,
    upstream: &str,
) -> Result<(), git2::Error> {
    let oid = git2::Oid::from_bytes(oid.as_slice())?;
    let msg = format!("Setting {} to {}", refname, oid);
    let reference = repo.reference(refname, oid, true, &msg)?;
    let mut reference = reference;
    reference.set_target(oid, "checkout")?;
    let mut branch = git2::Branch::wrap(reference);
    branch.set_upstream(Some(upstream))?;
    Ok(())
}

/// Relies on git2::Repository::checkout_head with a forced checkout: makes
/// the working tree match the head, overwriting local modifications.
#[verifier::external_body]
pub(crate) fn checkout_head_force(repo: &git2::Repository) -> Result<(), git2::Error> {
    repo.checkout_head(Some(git2::build::CheckoutBuilder::default().force()))
}

/// Relies on git2::Repository::checkout_head with a forced checkout that
/// allows conflicts and marks them merge-style: used for the first checkout
/// into a branchless repository.
#[verifier::external_body]
pub(crate) fn checkout_head_merge(repo: &git2::Repository) -> Result<(), git2::Error> {
    repo.checkout_head(Some(
        git2::build::CheckoutBuilder::default().allow_conflicts(true).conflict_style_merge(
            true,
        ).force(),
    ))
}

/// Relies on git2::Repository::checkout_head restricted to one path, forced:
/// restores that path in the working tree from the head. The path must hold
/// no NUL character: the backing library aborts on one while building the
/// C string.
#[verifier::external_body]
pub(crate) fn checkout_head_path(repo: &git2::Repository, path: &str) -> Result<(), git2::Error>
    requires
        crate::utils::nul_free(path@),
{
    let mut builder = git2::build::CheckoutBuilder::default();
    builder.force().path(path);
    repo.checkout_head(Some(&mut builder))
}

/// Relies on git2::Repository::checkout_head with default options: makes the
/// working tree match the head.
#[verifier::external_body]
pub(crate) fn checkout_head_default(repo: &git2::Repository) -> Result<(), git2::Error> {
    repo.checkout_head(None)
}

/// Relies on git2::Repository::merge_analysis: which kinds of merge the
/// fetched commit allows against the current head. A fast-forward takes
/// precedence over a normal merge; anything else calls for no action.
#[verifier::external_body]
pub(crate) fn merge_analysis_info(
    repo: &git2::Repository,
    fetch_commit: &git2::AnnotatedCommit<'_>,
) -> Result<crate::git::MergeAnalysisKind, git2::Error> {
    let (analysis, _) = repo.merge_analysis(&[fetch_commit])?;
    if analysis.is_fast_forward() {
        Ok(crate::git::MergeAnalysisKind::FastForward)
    } else if analysis.is_normal() {
        Ok(crate::git::MergeAnalysisKind::Normal)
    } else {
        Ok(crate::git::MergeAnalysisKind::Other)
    }
}

/// Relies on git2::Repository::merge_base: the 20 raw bytes of the nearest
/// common ancestor of the two commits.
#[verifier::external_body]
pub(crate) fn merge_base(
    repo: &git2::Repository,
    one: &Vec<u8>,
    two: &Vec<u8>,
) -> (r: Result<Vec<u8>, git2::Error>)
    ensures
        r is Ok ==> r->Ok_0@.len() == 20,
{
    let one = git2::Oid::from_bytes(one.as_slice())?;
    let two = git2::Oid::from_bytes(two.as_slice())?;
    Ok(repo.merge_base(one, two)?.as_bytes().to_vec())
}

/// Relies on git2::Repository::find_commit and git2::Commit::tree_id: the
/// 20 raw bytes of the commit's tree identifier.
#[verifier::external_body]
pub(crate) fn commit_tree_id(
    repo: &git2::Repository,
    commit: &Vec<u8>,
) -> (r: Result<Vec<u8>, git2::Error>)
    ensures
        r is Ok ==> r->Ok_0@.len() == 20,
{
    let oid = git2::Oid::from_bytes(commit.as_slice())?;
    Ok(repo.find_commit(oid)?.tree_id().as_bytes().to_vec())
}

/// Relies on git2::Repository::merge_trees: merges the local and remote
/// trees against their ancestor, returning the resulting in-memory index.
#[verifier::external_body]
pub(crate) fn merge_trees(
    repo: &git2::Repository,
    ancestor_tree: &Vec<u8>,
    local_tree: &Vec<u8>,
    remote_tree: &Vec<u8>,
) -> Result<git2::Index, git2::Error> {
    let ancestor = repo.find_tree(git2::Oid::from_bytes(ancestor_tree.as_slice())?)?;
    let local = repo.find_tree(git2::Oid::from_bytes(local_tree.as_slice())?)?;
    let remote = repo.find_tree(git2::Oid::from_bytes(remote_tree.as_slice())?)?;
    repo.merge_trees(&ancestor, &local, &remote, None)
}

/// Relies on git2::Index::has_conflicts.
#[verifier::external_body]
pub(crate) fn index_has_conflicts(index: &git2::Index) -> bool {
    index.has_conflicts()
}

/// Relies on git2::Repository::checkout_index: checks the given index out
/// into the working tree, conflict markers included.
#[verifier::external_body]
pub(crate) fn checkout_index_into_worktree(
    repo: &git2::Repository,
    index: &mut git2::Index,
) -> Result<(), git2::Error> {
    repo.checkout_index(Some(index), None)
}

/// Relies on git2::Index::write_tree_to: writes the index as a tree into
/// the repository, returning the 20 raw bytes of the tree's identifier.
#[verifier::external_body]
pub(crate) fn index_write_tree_to(
    index: &mut git2::Index,
    repo: &git2::Repository,
) -> (r: Result<Vec<u8>, git2::Error>)
    ensures
        r is Ok ==> r->Ok_0@.len() == 20,
{
    Ok(index.write_tree_to(repo)?.as_bytes().to_vec())
}

/// Relies on git2::Repository::commit with `HEAD` as the reference to
/// update: creates a merge commit from the merged tree with the two tips as
/// parents, using the repository's configured identity, and returns the 20
/// raw bytes of its identifier.
#[verifier::external_body]
pub(crate) fn create_merge_commit_on_head(
    repo: &git2::Repository,
    result_tree: &Vec<u8>,
    local: &Vec<u8>,
    remote: &Vec<u8>,
) -> (r: Result<Vec<u8>, git2::Error>)
    ensures
        r is Ok ==> r->Ok_0@.len() == 20,
{
    let local_oid = git2::Oid::from_bytes(local.as_slice())?;
    let remote_oid = git2::Oid::from_bytes(remote.as_slice())?;
    let tree = repo.find_tree(git2::Oid::from_bytes(result_tree.as_slice())?)?;
    let msg = format!("Merge: {} into {}", remote_oid, local_oid);
    let sig = repo.signature()?;
    let local_commit = repo.find_commit(local_oid)?;
    let remote_commit = repo.find_commit(remote_oid)?;
    let id = repo.commit(Some("HEAD"), &sig, &sig, &msg, &tree, &[&local_commit, &remote_commit])?;
    Ok(id.as_bytes().to_vec())
}

/// Relies on git2::Repository::index and git2::Index::write_tree: writes
/// the current index as a tree, returning the 20 raw bytes of the tree's
/// identifier.
#[verifier::external_body]
pub(crate) fn repo_index_write_tree(repo: &git2::Repository) -> (r: Result<Vec<u8>, git2::Error>)
    ensures
        r is Ok ==> r->Ok_0@.len() == 20,
{
    let mut index = repo.index()?;
    Ok(index.write_tree()?.as_bytes().to_vec())
}

/// Relies on git2::Repository::head and git2::Reference::peel_to_commit:
/// the 20 raw bytes of the commit the head resolves to.
#[verifier::external_body]
pub(crate) fn head_commit_id(repo: &git2::Repository) -> (r: Result<Vec<u8>, git2::Error>)
    ensures
        r is Ok ==> r->Ok_0@.len() == 20,
{
    Ok(repo.head()?.peel_to_commit()?.id().as_bytes().to_vec())
}

/// Relies on git2::Repository::commit_create_buffer: the unsigned commit
/// object built from the given tree, single parent and message, using the
/// repository's configured identity, as raw bytes.
#[verifier::external_body]
pub(crate) fn commit_buffer(
    repo: &git2::Repository,
    message: &str,
    tree: &Vec<u8>,
    parent: &Vec<u8>,
) -> Result<Vec<u8>, git2::Error> {
    let tree = repo.find_tree(git2::Oid::from_bytes(tree.as_slice())?)?;
    let parent = repo.find_commit(git2::Oid::from_bytes(parent.as_slice())?)?;
    let sig = repo.signature()?;
    let buf = repo.commit_create_buffer(&sig, &sig, message, &tree, &[&parent])?;
    Ok(buf.to_vec())
}

/// Relies on git2::Repository::commit_signed: finalizes a commit buffer
/// into a commit object, attaching the repository's identity line as its
/// signature field, and returns the 20 raw bytes of the commit's identifier.
#[verifier::external_body]
pub(crate) fn commit_signed_from_buffer(
    repo: &git2::Repository,
    buffer: &Vec<u8>,
) -> (r: Result<Vec<u8>, git2::Error>)
    ensures
        r is Ok ==> r->Ok_0@.len() == 20,
{
    let content = match std::str::from_utf8(buffer.as_slice()) {
        Ok(c) => c,
        Err(_) => return Err(git2::Error::from_str("commit buffer is not valid text")),
    };
    let sig = repo.signature()?.to_string();
    let id = repo.commit_signed(content, &sig, None)?;
    Ok(id.as_bytes().to_vec())
}

/// Relies on git2::Repository::head and git2::Reference::set_target:
/// retargets the head reference to the given commit.
#[verifier::external_body]
pub(crate) fn retarget_head(repo: &git2::Repository, oid: &Vec<u8>) -> Result<(), git2::Error> {
    let oid = git2::Oid::from_bytes(oid.as_slice())?;
    let mut head_ref = repo.head()?;
    head_ref.set_target(oid, "commit")?;
    Ok(())
}

/// Relies on git2::Repository::head and git2::Reference::target: the 20 raw
/// bytes of the head's direct target, or `None` when the head is symbolic
/// with no direct target.
#[verifier::external_body]
pub(crate) fn head_target(repo: &git2::Repository) -> (r: Result<Option<Vec<u8>>, git2::Error>)
    ensures
        r is Ok && r->Ok_0 is Some ==> r->Ok_0->0@.len() == 20,
{
    let head = repo.head()?;
    Ok(head.target().map(|oid| oid.as_bytes().to_vec()))
}

/// Relies on git2::Repository::find_object and git2::Object::as_commit: the
/// 20 raw bytes of the tree identifier of the object, or `None` when the
/// object is not a commit.
#[verifier::external_body]
pub(crate) fn object_commit_tree_id(
    repo: &git2::Repository,
    oid: &Vec<u8>,
) -> (r: Result<Option<Vec<u8>>, git2::Error>)
    ensures
        r is Ok && r->Ok_0 is Some ==> r->Ok_0->0@.len() == 20,
{
    let oid = git2::Oid::from_bytes(oid.as_slice())?;
    let obj = repo.find_object(oid, Some(git2::ObjectType::Commit))?;
    match obj.as_commit() {
        Some(commit) => Ok(Some(commit.tree_id().as_bytes().to_vec())),
        None => Ok(None),
    }
}

/// Relies on git2::Repository::find_tree and git2::Tree::get_path: the 20
/// raw bytes of the identifier of the entry at `path` inside the tree.
#[verifier::external_body]
pub(crate) fn tree_entry_id(
    repo: &git2::Repository,
    tree: &Vec<u8>,
    path: &str,
) -> (r: Result<Vec<u8>, git2::Error>)
    ensures
        r is Ok ==> r->Ok_0@.len() == 20,
{
    let tree = repo.find_tree(git2::Oid::from_bytes(tree.as_slice())?)?;
    let entry = tree.get_path(std::path::Path::new(path))?;
    Ok(entry.id().as_bytes().to_vec())
}

/// Relies on git2::Repository::find_blob and git2::Blob::content: the raw
/// bytes of the blob.
#[verifier::external_body]
pub(crate) fn blob_content(repo: &git2::Repository, oid: &Vec<u8>) -> Result<Vec<u8>, git2::Error> {
    let oid = git2::Oid::from_bytes(oid.as_slice())?;
    Ok(repo.find_blob(oid)?.content().to_vec())
}

/// Relies on git2::Repository::blob_path: reads the file at the given
/// absolute path and writes its content to the object database as a loose
/// blob, returning the 20 raw bytes of the blob's identifier. The blob is
/// unreferenced and garbage-collectable; it is how the engine reads a
/// working-tree file it does not track.
#[verifier::external_body]
pub(crate) fn workdir_blob_oid(repo: &git2::Repository, abs_path: &str) -> (r: Result<
    Vec<u8>,
    git2::Error,
>)
    ensures
        r is Ok ==> r->Ok_0@.len() == 20,
{
    Ok(repo.blob_path(std::path::Path::new(abs_path))?.as_bytes().to_vec())
}

/// Relies on git2::Index::add_path and write: stages one path and writes
/// the index.
#[verifier::external_body]
pub(crate) fn index_add_path(repo: &git2::Repository, path: &str) -> Result<(), git2::Error> {
    let mut index = repo.index()?;
    index.add_path(std::path::Path::new(path))?;
    index.write()
}

/// Relies on git2::Index::add_all and write: stages everything matching the
/// given pathspecs and writes the index.
#[verifier::external_body]
pub(crate) fn index_add_all(repo: &git2::Repository, pathspecs: &Vec<String>) -> Result<
    (),
    git2::Error,
> {
    let mut index = repo.index()?;
    index.add_all(pathspecs.iter(), git2::IndexAddOption::DEFAULT, None)?;
    index.write()
}

/// Relies on git2::Repository::revparse_single: resolves a revision-spec to
/// the 20 raw bytes of an object identifier.
#[verifier::external_body]
pub(crate) fn revparse_single_id(repo: &git2::Repository, spec: &str) -> (r: Result<
    Vec<u8>,
    git2::Error,
>)
    ensures
        r is Ok ==> r->Ok_0@.len() == 20,
{
    Ok(repo.revparse_single(spec)?.id().as_bytes().to_vec())
}

/// Relies on git2::Repository::revwalk with push_range: the number of
/// commits reachable from `tip` but not from `exclude`, counted in a single
/// forward traversal seeded with `tip` while `exclude` and its ancestors are
/// left out of the walk.
#[verifier::external_body]
pub(crate) fn revwalk_count_exclusive(
    repo: &git2::Repository,
    tip: &Vec<u8>,
    exclude: &Vec<u8>,
) -> Result<usize, git2::Error> {
    let tip = repo.find_commit(git2::Oid::from_bytes(tip.as_slice())?)?;
    let exclude = repo.find_commit(git2::Oid::from_bytes(exclude.as_slice())?)?;
    let mut revwalk = repo.revwalk()?;
    revwalk.push_range(&format!("{}..{}", exclude.id(), tip.id()))?;
    Ok(revwalk.count())
}

/// Relies on git2::Repository::diff_index_to_workdir with default options.
#[verifier::external_body]
pub(crate) fn diff_index_to_workdir<'repo>(
    repo: &'repo git2::Repository,
) -> Result<git2::Diff<'repo>, git2::Error> {
    repo.diff_index_to_workdir(None, None)
}

/// Relies on git2::Diff::stats: the diff's insertion, deletion and
/// files-changed counts.
#[verifier::external_body]
pub(crate) fn diff_stats(diff: &git2::Diff<'_>) -> Result<crate::state::Stats, git2::Error> {
    let stats = diff.stats()?;
    Ok(crate::state::Stats {
        deletions: stats.deletions(),
        insertions: stats.insertions(),
        files_changed: stats.files_changed(),
    })
}

/// Relies on git2::DiffOptions::new.
#[verifier::external_body]
pub(crate) fn diff_options_new() -> git2::DiffOptions {
    git2::DiffOptions::new()
}

/// Relies on git2::DiffOptions::pathspec: restricts the diff to one more
/// path. The path must hold no NUL character: the backing library aborts on
/// one while building the C string.
#[verifier::external_body]
pub(crate) fn diff_options_add_pathspec(opts: &mut git2::DiffOptions, path: &str)
    requires
        crate::utils::nul_free(path@),
{
    opts.pathspec(path);
}

/// Relies on git2::Repository::diff_tree_to_workdir_with_index: the diff
/// between the tree of the given commit tree identifier and the working
/// directory, scoped by the options' pathspecs.
#[verifier::external_body]
pub(crate) fn diff_tree_to_workdir_with_index<'repo>(
    repo: &'repo git2::Repository,
    tree: &Vec<u8>,
    opts: &mut git2::DiffOptions,
) -> Result<git2::Diff<'repo>, git2::Error> {
    let tree = repo.find_tree(git2::Oid::from_bytes(tree.as_slice())?)?;
    repo.diff_tree_to_workdir_with_index(Some(&tree), Some(opts))
}

/// Relies on git2::Diff::print in patch format: one record per printed
/// line, in order, each converted to its text, line numbers and origin
/// marker. File-header and binary lines are printed with negative line
/// numbers, which decode to `None`: those records carry no line numbers.
#[verifier::external_body]
pub(crate) fn diff_patch_records(diff: &git2::Diff<'_>) -> (r: Result<
    Vec<crate::state::GitDiff>,
    git2::Error,
>)
    ensures
        r is Ok ==> forall|k: int|
            0 <= k < r->Ok_0@.len() ==> (((#[trigger] r->Ok_0@[k]).origin == 'F'
                || r->Ok_0@[k].origin == 'B') ==> (r->Ok_0@[k].old_line is None
                && r->Ok_0@[k].new_line is None)),
{
    let mut lines: Vec<crate::state::GitDiff> = Vec::new();
    diff.print(git2::DiffFormat::Patch, |_, _, line_diff| {
        lines.push(crate::state::GitDiff {
            diff_content: String::from_utf8_lossy(line_diff.content()).into_owned(),
            new_line: line_diff.new_lineno(),
            old_line: line_diff.old_lineno(),
            origin: line_diff.origin(),
        });
        true
    })?;
    Ok(lines)
}

/// Relies on String::from_utf8_lossy: the text decoded from the bytes, a
/// function of the bytes alone.
#[verifier::external_body]
pub(crate) fn bytes_to_string_lossy(bytes: &Vec<u8>) -> (r: String)
    ensures
        r@ == utf8_lossy(bytes@),
{
    String::from_utf8_lossy(bytes.as_slice()).into_owned()
}

/// The text that lossy UTF-8 decoding yields for a byte sequence.
pub uninterp spec fn utf8_lossy(bytes: Seq<u8>) -> Seq<char>;

} // verus!
