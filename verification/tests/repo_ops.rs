//! Tests of the session commands against real repositories, built entirely
//! through the backing library: blobs, trees and commits are written
//! directly, and working-tree states are produced by resets.

use git2::{Repository, ResetType, Signature};
use git_horse::cmd;
use git_horse::error::GitError;
use git_horse::git::{INTERESTING, INTERESTING_STAGED};
use git_horse::state::{MyBranchType, MyState};

fn unique_dir(name: &str) -> String {
    let nanos = std::time::SystemTime::now()
        .duration_since(std::time::UNIX_EPOCH)
        .unwrap()
        .as_nanos();
    format!("/tmp/git-horse-tests/{}-{}", name, nanos)
}

fn init_repo(name: &str) -> (Repository, String) {
    let dir = unique_dir(name);
    let repo = Repository::init(&dir).unwrap();
    let mut cfg = repo.config().unwrap();
    cfg.set_str("user.name", "Tester").unwrap();
    cfg.set_str("user.email", "tester@example.com").unwrap();
    (repo, dir)
}

/// Writes `content` under `file` as a commit on HEAD and materializes it in
/// the index and working tree.
fn commit_file(repo: &Repository, file: &str, content: &[u8], msg: &str) -> git2::Oid {
    let blob = repo.blob(content).unwrap();
    let mut tb = match repo.head() {
        Ok(head) => {
            let tree = head.peel_to_tree().unwrap();
            repo.treebuilder(Some(&tree)).unwrap()
        }
        Err(_) => repo.treebuilder(None).unwrap(),
    };
    tb.insert(file, blob, 0o100644).unwrap();
    let tree_oid = tb.write().unwrap();
    let tree = repo.find_tree(tree_oid).unwrap();
    let sig = Signature::now("Tester", "tester@example.com").unwrap();
    let oid = match repo.head() {
        Ok(head) => {
            let parent = head.peel_to_commit().unwrap();
            repo.commit(Some("HEAD"), &sig, &sig, msg, &tree, &[&parent]).unwrap()
        }
        Err(_) => repo.commit(Some("HEAD"), &sig, &sig, msg, &tree, &[]).unwrap(),
    };
    let obj = repo.find_object(oid, None).unwrap();
    repo.reset(&obj, ResetType::Hard, None).unwrap();
    oid
}

fn open_state(dir: &str) -> MyState {
    let mut state = MyState { repo: None };
    cmd::open(&mut state, dir).unwrap();
    state
}

/// Leaves `file` modified in the working tree only: head and index hold
/// `old`, the working tree holds `new`.
fn make_worktree_modified(repo: &Repository, file: &str, old: &[u8], new: &[u8]) -> git2::Oid {
    let c1 = commit_file(repo, file, old, "base");
    let _c2 = commit_file(repo, file, new, "edit");
    let obj = repo.find_object(c1, None).unwrap();
    repo.reset(&obj, ResetType::Mixed, None).unwrap();
    c1
}

/// Leaves `file` untracked: it exists in the working tree but neither in
/// the index nor in the head tree.
fn make_untracked(repo: &Repository, committed: &str, untracked: &str) {
    let c1 = commit_file(repo, committed, b"committed line\n", "base");
    let _c2 = commit_file(repo, untracked, b"loose line\n", "extra");
    let obj = repo.find_object(c1, None).unwrap();
    repo.reset(&obj, ResetType::Mixed, None).unwrap();
}

#[test]
fn empty_session_fails_with_repo_not_found() {
    let state = MyState { repo: None };
    assert!(matches!(cmd::find_branches(&state, None), Err(GitError::RepoNotFound)));
    assert!(matches!(cmd::get_current_branch_name(&state), Err(GitError::RepoNotFound)));
    assert!(matches!(cmd::get_repo_name(&state), Err(GitError::RepoNotFound)));
    assert!(matches!(cmd::get_modified_files(&state), Err(GitError::RepoNotFound)));
    assert!(matches!(cmd::get_staged_files(&state), Err(GitError::RepoNotFound)));
    assert!(matches!(cmd::get_repo_diff(&state), Err(GitError::RepoNotFound)));
    assert!(matches!(cmd::git_diff(&state), Err(GitError::RepoNotFound)));
    assert!(matches!(cmd::add_all(&state), Err(GitError::RepoNotFound)));
    assert!(matches!(cmd::commit(&state, "m".to_string()), Err(GitError::RepoNotFound)));
    assert!(matches!(cmd::get_pending_commits_to_push(&state), Err(GitError::RepoNotFound)));
    assert!(matches!(cmd::get_pending_commits_to_pull(&state), Err(GitError::RepoNotFound)));
}

#[test]
fn open_missing_path_fails() {
    let mut state = MyState { repo: None };
    let r = cmd::open(&mut state, "target/no-such-repository-anywhere/x");
    assert!(matches!(r, Err(GitError::RepoNotFound)));
}

#[test]
fn open_and_repo_name() {
    let (_repo, dir) = init_repo("name");
    let state = open_state(&dir);
    let (short, path) = cmd::get_repo_name(&state).unwrap();
    assert!(dir.ends_with(&short));
    assert!(path.ends_with(&short));
}

#[test]
fn branches_and_checkout() {
    let (repo, dir) = init_repo("branches");
    let c1 = commit_file(&repo, "f.txt", b"one\n", "c1");
    repo.branch("dev", &repo.find_commit(c1).unwrap(), false).unwrap();
    let state = open_state(&dir);
    let all = cmd::find_branches(&state, None).unwrap();
    assert!(all.iter().any(|b| b == "dev"));
    let locals = cmd::find_branches(&state, Some(MyBranchType::Local)).unwrap();
    assert!(locals.iter().any(|b| b == "dev"));
    let remotes = cmd::find_branches(&state, Some(MyBranchType::Remote)).unwrap();
    assert!(remotes.is_empty());
    cmd::checkout_branch(&state, "dev".to_string()).unwrap();
    assert_eq!(cmd::get_current_branch_name(&state).unwrap(), "dev");
    let missing = cmd::checkout_branch(&state, "no-such-branch".to_string());
    assert!(matches!(missing, Err(GitError::GitCheckoutError)));
}

#[test]
fn modified_view_flags_and_paths() {
    let (repo, dir) = init_repo("modified");
    make_worktree_modified(&repo, "f.txt", b"one\n", b"one\ntwo\n");
    let state = open_state(&dir);
    let modified = cmd::get_modified_files(&state).unwrap();
    assert_eq!(modified.len(), 1);
    assert_eq!(modified[0].file_name, "f.txt");
    assert!(modified[0].status & INTERESTING != 0);
    assert!(!modified[0].file_name.ends_with('/'));
    let staged = cmd::get_staged_files(&state).unwrap();
    assert!(staged.is_empty());
}

#[test]
fn untracked_file_is_modified_view_new() {
    let (repo, dir) = init_repo("untracked");
    make_untracked(&repo, "f.txt", "g.txt");
    let state = open_state(&dir);
    let modified = cmd::get_modified_files(&state).unwrap();
    assert_eq!(modified.len(), 1);
    assert_eq!(modified[0].file_name, "g.txt");
    assert!(modified[0].status & 128 != 0);
}

#[test]
fn add_stages_exactly_the_requested_file() {
    let (repo, dir) = init_repo("add");
    make_worktree_modified(&repo, "f.txt", b"one\n", b"two\n");
    let state = open_state(&dir);
    cmd::add(&state, vec!["f.txt".to_string()]).unwrap();
    let staged = cmd::get_staged_files(&state).unwrap();
    assert_eq!(staged.len(), 1);
    assert_eq!(staged[0].file_name, "f.txt");
    assert!(staged[0].status & INTERESTING_STAGED != 0);
}

#[test]
fn add_ignores_files_without_changes() {
    let (repo, dir) = init_repo("addnone");
    commit_file(&repo, "f.txt", b"one\n", "c1");
    let state = open_state(&dir);
    cmd::add(&state, vec!["f.txt".to_string()]).unwrap();
    assert!(cmd::get_staged_files(&state).unwrap().is_empty());
}

#[test]
fn stage_all_twice_is_idempotent() {
    let (repo, dir) = init_repo("stageall");
    make_worktree_modified(&repo, "f.txt", b"one\n", b"two\n");
    let state = open_state(&dir);
    cmd::add_all(&state).unwrap();
    let first = cmd::get_staged_files(&state).unwrap();
    cmd::add_all(&state).unwrap();
    let second = cmd::get_staged_files(&state).unwrap();
    assert_eq!(first.len(), second.len());
    for (a, b) in first.iter().zip(second.iter()) {
        assert_eq!(a.file_name, b.file_name);
        assert_eq!(a.status, b.status);
    }
    assert_eq!(first.len(), 1);
    assert_eq!(first[0].file_name, "f.txt");
}

#[test]
fn repo_diff_stats_counts() {
    let (repo, dir) = init_repo("stats");
    make_worktree_modified(&repo, "f.txt", b"one\n", b"one\ntwo\n");
    let state = open_state(&dir);
    let stats = cmd::get_repo_diff(&state).unwrap();
    assert_eq!(stats.files_changed, 1);
    assert_eq!(stats.insertions, 1);
    assert_eq!(stats.deletions, 0);
}

#[test]
fn diff_shows_modified_file_records() {
    let (repo, dir) = init_repo("diffmod");
    make_worktree_modified(&repo, "f.txt", b"one\n", b"one\ntwo\n");
    let state = open_state(&dir);
    let records = cmd::git_diff(&state).unwrap();
    assert!(records.iter().any(|r| r.origin == 'F' && r.diff_content.contains("f.txt")));
    assert!(records.iter().any(|r| r.origin == '+' && r.diff_content == "two\n"));
}

#[test]
fn diff_synthesizes_untracked_records() {
    let (repo, dir) = init_repo("diffuntracked");
    make_untracked(&repo, "f.txt", "g.txt");
    let state = open_state(&dir);
    let records = cmd::git_diff(&state).unwrap();
    assert_eq!(records.len(), 2);
    assert_eq!(records[0].diff_content, "diff --git a/g.txt b/g.txt");
    assert_eq!(records[0].origin, 'F');
    assert_eq!(records[0].new_line, None);
    assert_eq!(records[0].old_line, None);
    assert_eq!(records[1].diff_content, "loose line\n");
    assert_eq!(records[1].origin, '+');
    assert_eq!(records[1].new_line, Some(1));
    assert_eq!(records[1].old_line, Some(1));
}

#[test]
fn discard_then_diff_shows_nothing_for_the_file() {
    let (repo, dir) = init_repo("discard");
    make_worktree_modified(&repo, "f.txt", b"one\n", b"changed\n");
    let state = open_state(&dir);
    let before = cmd::git_diff(&state).unwrap();
    assert!(before.iter().any(|r| r.diff_content.contains("f.txt")));
    cmd::discard(&state, vec!["f.txt".to_string()]).unwrap();
    let after = cmd::git_diff(&state).unwrap();
    assert!(after.iter().all(|r| !r.diff_content.contains("f.txt")));
    assert!(cmd::get_modified_files(&state).unwrap().is_empty());
}

#[test]
fn commit_with_unchanged_index_keeps_head() {
    let (repo, dir) = init_repo("noopcommit");
    commit_file(&repo, "f.txt", b"one\n", "c1");
    let state = open_state(&dir);
    let before = repo.head().unwrap().peel_to_commit().unwrap().id();
    cmd::commit(&state, "nothing to do".to_string()).unwrap();
    let after = repo.head().unwrap().peel_to_commit().unwrap().id();
    assert_eq!(before, after);
}

#[test]
fn commit_writes_staged_changes() {
    let (repo, dir) = init_repo("realcommit");
    make_worktree_modified(&repo, "f.txt", b"one\n", b"two\n");
    let state = open_state(&dir);
    let before = repo.head().unwrap().peel_to_commit().unwrap().id();
    cmd::add(&state, vec!["f.txt".to_string()]).unwrap();
    cmd::commit(&state, "update f".to_string()).unwrap();
    let head = repo.head().unwrap().peel_to_commit().unwrap();
    assert_ne!(head.id(), before);
    assert_eq!(head.parent_id(0).unwrap(), before);
    let tree = head.tree().unwrap();
    let entry = tree.get_path(std::path::Path::new("f.txt")).unwrap();
    let blob = repo.find_blob(entry.id()).unwrap();
    assert_eq!(blob.content(), b"two\n");
}

#[test]
fn pending_commits_three_ahead_zero_behind() {
    let (repo, dir) = init_repo("pending");
    let c1 = commit_file(&repo, "f.txt", b"1\n", "c1");
    commit_file(&repo, "f.txt", b"2\n", "c2");
    commit_file(&repo, "f.txt", b"3\n", "c3");
    commit_file(&repo, "f.txt", b"4\n", "c4");
    let state = open_state(&dir);
    let branch = cmd::get_current_branch_name(&state).unwrap();
    repo.reference(&format!("refs/remotes/origin/{}", branch), c1, true, "remote tip").unwrap();
    assert_eq!(cmd::get_pending_commits_to_push(&state).unwrap(), 3);
    assert_eq!(cmd::get_pending_commits_to_pull(&state).unwrap(), 0);
}

#[test]
fn open_replaces_the_previous_session() {
    let (repo_a, dir_a) = init_repo("replace-a");
    commit_file(&repo_a, "f.txt", b"a\n", "c1");
    let (repo_b, dir_b) = init_repo("replace-b");
    commit_file(&repo_b, "f.txt", b"b\n", "c1");
    let mut state = MyState { repo: None };
    cmd::open(&mut state, &dir_a).unwrap();
    let (short_a, _) = cmd::get_repo_name(&state).unwrap();
    assert!(dir_a.ends_with(&short_a));
    cmd::open(&mut state, &dir_b).unwrap();
    let (short_b, _) = cmd::get_repo_name(&state).unwrap();
    assert!(dir_b.ends_with(&short_b));
    assert_ne!(short_a, short_b);
}

#[test]
fn discard_of_a_file_absent_from_head_fails() {
    let (repo, dir) = init_repo("discard-missing");
    commit_file(&repo, "f.txt", b"one\n", "c1");
    let state = open_state(&dir);
    let r = cmd::discard(&state, vec!["never-committed.txt".to_string()]);
    assert!(matches!(r, Err(GitError::Error(_))));
}

#[test]
fn discard_of_a_path_with_a_nul_character_fails() {
    let (repo, dir) = init_repo("discard-nul");
    commit_file(&repo, "f.txt", b"one\n", "c1");
    let state = open_state(&dir);
    let r = cmd::discard(&state, vec!["bad\0name.txt".to_string()]);
    assert!(matches!(r, Err(GitError::Error(_))));
}

#[test]
fn diff_on_a_repository_without_commits_fails() {
    let (_repo, dir) = init_repo("diff-empty");
    let state = open_state(&dir);
    let r = cmd::git_diff(&state);
    assert!(matches!(r, Err(GitError::Error(_))));
}

#[test]
fn pending_commits_without_upstream_fails() {
    let (repo, dir) = init_repo("noupstream");
    commit_file(&repo, "f.txt", b"1\n", "c1");
    let state = open_state(&dir);
    assert!(matches!(cmd::get_pending_commits_to_push(&state), Err(GitError::Error(_))));
}
