//! Tests of fetch, push, pull and merge resolution between real
//! repositories connected over the local filesystem transport.

use git2::{Repository, ResetType, Signature};
use git_horse::cmd;
use git_horse::state::MyState;

fn unique_dir(name: &str) -> String {
    let nanos = std::time::SystemTime::now()
        .duration_since(std::time::UNIX_EPOCH)
        .unwrap()
        .as_nanos();
    format!("/tmp/git-horse-tests/{}-{}", name, nanos)
}

fn init_repo(name: &str) -> (Repository, String) {
    let dir = unique_dir(name);
    let repo = Repository::init(&dir).unwrap();
    let mut cfg = repo.config().unwrap();
    cfg.set_str("user.name", "Tester").unwrap();
    cfg.set_str("user.email", "tester@example.com").unwrap();
    (repo, dir)
}

fn commit_file(repo: &Repository, file: &str, content: &[u8], msg: &str) -> git2::Oid {
    let blob = repo.blob(content).unwrap();
    let mut tb = match repo.head() {
        Ok(head) => {
            let tree = head.peel_to_tree().unwrap();
            repo.treebuilder(Some(&tree)).unwrap()
        }
        Err(_) => repo.treebuilder(None).unwrap(),
    };
    tb.insert(file, blob, 0o100644).unwrap();
    let tree_oid = tb.write().unwrap();
    let tree = repo.find_tree(tree_oid).unwrap();
    let sig = Signature::now("Tester", "tester@example.com").unwrap();
    let oid = match repo.head() {
        Ok(head) => {
            let parent = head.peel_to_commit().unwrap();
            repo.commit(Some("HEAD"), &sig, &sig, msg, &tree, &[&parent]).unwrap()
        }
        Err(_) => repo.commit(Some("HEAD"), &sig, &sig, msg, &tree, &[]).unwrap(),
    };
    let obj = repo.find_object(oid, None).unwrap();
    repo.reset(&obj, ResetType::Hard, None).unwrap();
    oid
}

fn open_state(dir: &str) -> MyState {
    let mut state = MyState { repo: None };
    cmd::open(&mut state, dir).unwrap();
    state
}

/// The branch that an unborn head points at.
fn default_branch(repo: &Repository) -> String {
    let head = repo.find_reference("HEAD").unwrap();
    head.symbolic_target()
        .unwrap()
        .unwrap()
        .trim_start_matches("refs/heads/")
        .to_string()
}

/// An empty repository wired to `origin` over the filesystem.
fn clone_shell(name: &str, origin: &Repository) -> (Repository, String) {
    let (local, dir) = init_repo(name);
    let url = origin.path().to_str().unwrap().to_string();
    local.remote("origin", &url).unwrap();
    (local, dir)
}

#[test]
fn pull_into_empty_repository_creates_branch_ref() {
    let (origin, _odir) = init_repo("p6-origin");
    let c1 = commit_file(&origin, "f.txt", b"hello\n", "c1");
    let (local, ldir) = clone_shell("p6-local", &origin);
    let state = open_state(&ldir);
    cmd::pull_from_remote(&state, None).unwrap();
    let branch = default_branch(&origin);
    let local_ref = local.find_reference(&format!("refs/heads/{}", branch)).unwrap();
    assert_eq!(local_ref.target().unwrap(), c1);
    assert_eq!(local.head().unwrap().peel_to_commit().unwrap().id(), c1);
    // The working tree is byte-identical to the fetched commit's tree.
    assert!(cmd::get_modified_files(&state).unwrap().is_empty());
    assert!(cmd::get_staged_files(&state).unwrap().is_empty());
    assert!(cmd::git_diff(&state).unwrap().is_empty());
    let stats = cmd::get_repo_diff(&state).unwrap();
    assert_eq!(stats.files_changed, 0);
}

#[test]
fn pull_fast_forwards_existing_branch() {
    let (origin, _odir) = init_repo("ff-origin");
    commit_file(&origin, "f.txt", b"one\n", "c1");
    let (local, ldir) = clone_shell("ff-local", &origin);
    let state = open_state(&ldir);
    cmd::pull_from_remote(&state, None).unwrap();
    let c2 = commit_file(&origin, "f.txt", b"one\ntwo\n", "c2");
    cmd::pull_from_remote(&state, None).unwrap();
    assert_eq!(local.head().unwrap().peel_to_commit().unwrap().id(), c2);
    assert!(cmd::get_modified_files(&state).unwrap().is_empty());
}

#[test]
fn pull_when_up_to_date_is_a_no_op() {
    let (origin, _odir) = init_repo("utd-origin");
    let c1 = commit_file(&origin, "f.txt", b"one\n", "c1");
    let (local, ldir) = clone_shell("utd-local", &origin);
    let state = open_state(&ldir);
    cmd::pull_from_remote(&state, None).unwrap();
    cmd::pull_from_remote(&state, None).unwrap();
    assert_eq!(local.head().unwrap().peel_to_commit().unwrap().id(), c1);
}

#[test]
fn pull_merges_divergent_histories() {
    let (origin, _odir) = init_repo("merge-origin");
    commit_file(&origin, "f.txt", b"base\n", "c1");
    let (local, ldir) = clone_shell("merge-local", &origin);
    let state = open_state(&ldir);
    cmd::pull_from_remote(&state, None).unwrap();
    let c2 = commit_file(&origin, "g.txt", b"remote\n", "c2");
    let c3 = commit_file(&local, "h.txt", b"local\n", "c3");
    cmd::pull_from_remote(&state, None).unwrap();
    let head = local.head().unwrap().peel_to_commit().unwrap();
    assert_eq!(head.parent_count(), 2);
    let parents: Vec<git2::Oid> = head.parent_ids().collect();
    assert!(parents.contains(&c3));
    assert!(parents.contains(&c2));
    assert!(cmd::get_modified_files(&state).unwrap().is_empty());
}

#[test]
fn pull_with_conflicts_stops_without_merge_commit() {
    let (origin, _odir) = init_repo("conflict-origin");
    commit_file(&origin, "f.txt", b"base\n", "c1");
    let (local, ldir) = clone_shell("conflict-local", &origin);
    let state = open_state(&ldir);
    cmd::pull_from_remote(&state, None).unwrap();
    commit_file(&origin, "f.txt", b"remote change\n", "c2");
    let c3 = commit_file(&local, "f.txt", b"local change\n", "c3");
    cmd::pull_from_remote(&state, None).unwrap();
    // No merge commit: the head is left at the local tip, and the
    // conflicted content sits in the working tree for the user.
    assert_eq!(local.head().unwrap().peel_to_commit().unwrap().id(), c3);
    let modified = cmd::get_modified_files(&state).unwrap();
    assert!(modified.iter().any(|f| f.file_name == "f.txt"));
}

#[test]
fn fetch_updates_remote_tracking_tip() {
    let (origin, _odir) = init_repo("fetch-origin");
    let c1 = commit_file(&origin, "f.txt", b"one\n", "c1");
    let (local, ldir) = clone_shell("fetch-local", &origin);
    let state = open_state(&ldir);
    cmd::fetch_remote(&state, None).unwrap();
    let branch = default_branch(&origin);
    let tracking = local
        .find_reference(&format!("refs/remotes/origin/{}", branch))
        .unwrap();
    assert_eq!(tracking.target().unwrap(), c1);
    // Fetch moves no local branch pointer: the head is still unborn.
    assert!(local.head().is_err());
}

#[test]
fn push_updates_the_remote_branch() {
    let bare_dir = unique_dir("push-target");
    let bare = Repository::init_bare(&bare_dir).unwrap();
    let (local, ldir) = init_repo("push-src");
    let c1 = commit_file(&local, "f.txt", b"one\n", "c1");
    let url = bare.path().to_str().unwrap().to_string();
    local.remote("origin", &url).unwrap();
    let state = open_state(&ldir);
    cmd::push_remote(&state, None).unwrap();
    let branch = cmd::get_current_branch_name(&state).unwrap();
    let pushed = bare.find_reference(&format!("refs/heads/{}", branch)).unwrap();
    assert_eq!(pushed.target().unwrap(), c1);
}

#[test]
fn pending_counts_after_remote_advances() {
    let (origin, _odir) = init_repo("counts-origin");
    commit_file(&origin, "f.txt", b"one\n", "c1");
    let (local, ldir) = clone_shell("counts-local", &origin);
    let state = open_state(&ldir);
    cmd::pull_from_remote(&state, None).unwrap();
    commit_file(&origin, "f.txt", b"two\n", "c2");
    cmd::fetch_remote(&state, None).unwrap();
    assert_eq!(cmd::get_pending_commits_to_push(&state).unwrap(), 0);
    assert_eq!(cmd::get_pending_commits_to_pull(&state).unwrap(), 1);
    let _local_only = commit_file(&local, "g.txt", b"mine\n", "c3");
    assert_eq!(cmd::get_pending_commits_to_push(&state).unwrap(), 1);
}

#[test]
fn checkout_remote_branch_materializes_it() {
    let (origin, _odir) = init_repo("corb-origin");
    let c1 = commit_file(&origin, "f.txt", b"one\n", "c1");
    let c2 = commit_file(&origin, "g.txt", b"two\n", "c2");
    origin.branch("feature", &origin.find_commit(c1).unwrap(), false).unwrap();
    let (local, ldir) = clone_shell("corb-local", &origin);
    let state = open_state(&ldir);
    cmd::fetch_remote(&state, None).unwrap();
    cmd::checkout_remote_branch(&state, "origin/feature".to_string()).unwrap();
    assert_eq!(cmd::get_current_branch_name(&state).unwrap(), "feature");
    assert_eq!(local.head().unwrap().peel_to_commit().unwrap().id(), c1);
    assert_ne!(c1, c2);
    let branch = local
        .find_branch("feature", git2::BranchType::Local)
        .unwrap();
    let upstream = branch.upstream().unwrap();
    assert_eq!(upstream.get().target().unwrap(), c1);
}

#[test]
fn checkout_remote_branch_missing_head() {
    let (origin, _odir) = init_repo("corb-missing-origin");
    commit_file(&origin, "f.txt", b"one\n", "c1");
    let (_local, ldir) = clone_shell("corb-missing-local", &origin);
    let state = open_state(&ldir);
    let r = cmd::checkout_remote_branch(&state, "origin/nope".to_string());
    assert!(matches!(r, Err(git_horse::error::GitError::RemoteHeadNotFound)));
}

#[test]
fn checkout_branch_falls_back_to_tracked_remote_branch() {
    let (origin, _odir) = init_repo("fallback-origin");
    let c1 = commit_file(&origin, "f.txt", b"one\n", "c1");
    let c2 = commit_file(&origin, "g.txt", b"two\n", "c2");
    origin.branch("feature", &origin.find_commit(c1).unwrap(), false).unwrap();
    let (local, ldir) = clone_shell("fallback-local", &origin);
    let state = open_state(&ldir);
    cmd::fetch_remote(&state, None).unwrap();
    // No local branch named "origin/feature" exists, so the checkout
    // materializes the remote-tracking branch of that name.
    cmd::checkout_branch(&state, "origin/feature".to_string()).unwrap();
    assert_eq!(cmd::get_current_branch_name(&state).unwrap(), "feature");
    assert_eq!(local.head().unwrap().peel_to_commit().unwrap().id(), c1);
    assert_ne!(c1, c2);
}

#[test]
fn get_remotes_lists_configured_names() {
    let (origin, _odir) = init_repo("remotes-origin");
    commit_file(&origin, "f.txt", b"one\n", "c1");
    let (_local, ldir) = clone_shell("remotes-local", &origin);
    let state = open_state(&ldir);
    let remotes = cmd::get_remotes(&state).unwrap();
    assert_eq!(remotes, vec!["origin".to_string()]);
}
