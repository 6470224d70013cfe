//! Tests of the pure string, classification and diff-reconstruction logic.

use git_horse::db::db_dir_from_cwd;
use git_horse::diff::{excluded_by_headers, remaining_candidates, synthetic_records};
use git_horse::git::{INTERESTING, INTERESTING_STAGED};
use git_horse::state::{FileStatus, GitDiff, StatusEntry};
use git_horse::status::classify;
use git_horse::utils::{
    absolute_from, bytes_eq, get_origin_and_current_name_from_line, join_with, path_is_file,
    remove_all, repo_name_parts, split_char, split_lines, str_eq, strip_prefix_str,
    trim_start_matches_str,
};

#[test]
fn header_line_names() {
    let (origin, current) =
        get_origin_and_current_name_from_line("diff --git a/foo.txt b/bar.txt");
    assert_eq!(origin, "foo.txt");
    assert_eq!(current, "bar.txt");
}

#[test]
fn header_line_names_strip_repeated_marker() {
    let (origin, current) = get_origin_and_current_name_from_line("diff --git a/a/x.txt b/y.txt");
    assert_eq!(origin, "x.txt");
    assert_eq!(current, "y.txt");
}

#[test]
fn split_char_keeps_empty_tokens() {
    let tokens = split_char("a  b", ' ');
    assert_eq!(tokens, vec!["a".to_string(), "".to_string(), "b".to_string()]);
    let tokens = split_char("", ' ');
    assert_eq!(tokens, vec!["".to_string()]);
    let tokens = split_char("/x/", '/');
    assert_eq!(tokens, vec!["".to_string(), "x".to_string(), "".to_string()]);
}

#[test]
fn join_with_rebuilds() {
    let parts = vec!["".to_string(), "home".to_string(), "u".to_string(), "proj".to_string()];
    assert_eq!(join_with(&parts, 4, "/"), "/home/u/proj");
    assert_eq!(join_with(&parts, 2, "/"), "/home");
    assert_eq!(join_with(&parts, 0, "/"), "");
}

#[test]
fn trim_and_strip_prefix() {
    assert_eq!(trim_start_matches_str("a/a/x", "a/"), "x");
    assert_eq!(trim_start_matches_str("x", "a/"), "x");
    assert_eq!(strip_prefix_str("refs/heads/main", "refs/heads/"), "main");
    assert_eq!(strip_prefix_str("main", "refs/heads/"), "main");
}

#[test]
fn remove_all_occurrences() {
    assert_eq!(remove_all("/home/u/proj/.git/", "/.git"), "/home/u/proj/");
    assert_eq!(remove_all("origin/feature", "origin/"), "feature");
    assert_eq!(remove_all("abcabc", "b"), "acac");
}

#[test]
fn string_and_byte_equality() {
    assert!(str_eq("abc", "abc"));
    assert!(!str_eq("abc", "abd"));
    assert!(!str_eq("abc", "ab"));
    assert!(bytes_eq(&vec![1u8, 2, 3], &vec![1u8, 2, 3]));
    assert!(!bytes_eq(&vec![1u8, 2, 3], &vec![1u8, 2, 4]));
}

#[test]
fn split_lines_matches_rust_lines() {
    assert_eq!(split_lines("a\nb\r\nc"), vec!["a", "b", "c"]);
    assert_eq!(split_lines("a\n"), vec!["a"]);
    assert_eq!(split_lines(""), Vec::<String>::new());
    assert_eq!(split_lines("\n\n"), vec!["", ""]);
    for s in ["a\nb\r\nc", "a\n", "", "\n\n", "x\r", "one\ntwo\n"] {
        let expected: Vec<String> = s.lines().map(|l| l.to_string()).collect();
        assert_eq!(split_lines(s), expected);
    }
}

#[test]
fn path_is_file_rejects_directories() {
    assert!(path_is_file("f.txt"));
    assert!(path_is_file("dir/f.txt"));
    assert!(!path_is_file("dir/"));
    assert!(!path_is_file(""));
}

#[test]
fn repo_name_parts_from_store_path() {
    let (short, path) = repo_name_parts("/home/u/proj/.git/").unwrap();
    assert_eq!(short, "proj");
    assert_eq!(path, "/home/u/proj");
    assert!(repo_name_parts("ab").is_none());
}

#[test]
fn absolute_path_from_relative() {
    assert_eq!(absolute_from("/home/u/proj/.git/", "src/x.rs"), "/home/u/proj/src/x.rs");
}

#[test]
fn db_dir_derivation() {
    assert_eq!(db_dir_from_cwd("C:\\code\\app"), "C:/code/tmp/db");
    assert_eq!(db_dir_from_cwd("/x"), "/tmp/db");
}

#[test]
fn classify_filters_by_mask_and_path() {
    let entries = vec![
        StatusEntry { path: "a.txt".to_string(), status: 128, staged_nonempty: None },
        StatusEntry { path: "dir/".to_string(), status: 128, staged_nonempty: None },
        StatusEntry { path: "ignored.txt".to_string(), status: 16384, staged_nonempty: None },
        StatusEntry { path: "staged.txt".to_string(), status: 2, staged_nonempty: Some(true) },
    ];
    let modified: Vec<FileStatus> = classify(&entries, INTERESTING);
    assert_eq!(modified.len(), 1);
    assert_eq!(modified[0].file_name, "a.txt");
    assert_eq!(modified[0].status, 128);
    let staged: Vec<FileStatus> = classify(&entries, INTERESTING_STAGED);
    assert_eq!(staged.len(), 1);
    assert_eq!(staged[0].file_name, "staged.txt");
}

#[test]
fn classify_is_deterministic() {
    let entries = vec![
        StatusEntry { path: "a.txt".to_string(), status: 1, staged_nonempty: None },
        StatusEntry { path: "b.txt".to_string(), status: 4, staged_nonempty: None },
    ];
    let first: Vec<FileStatus> = classify(&entries, INTERESTING_STAGED);
    let second: Vec<FileStatus> = classify(&entries, INTERESTING_STAGED);
    assert_eq!(first.len(), second.len());
    for (a, b) in first.iter().zip(second.iter()) {
        assert_eq!(a.file_name, b.file_name);
        assert_eq!(a.status, b.status);
    }
}

fn header_record(content: &str) -> GitDiff {
    GitDiff {
        diff_content: content.to_string(),
        new_line: None,
        old_line: None,
        origin: 'F',
    }
}

#[test]
fn untracked_renamed_to_appears_once() {
    // An untracked file that is also renamed-to in the real diff: its
    // synthetic candidate is dropped, so the path appears exactly once.
    let real = vec![header_record("diff --git a/old.txt b/x.txt")];
    let candidates = vec!["x.txt".to_string(), "other.txt".to_string()];
    let remaining = remaining_candidates(&real, &candidates);
    assert_eq!(remaining, vec!["other.txt".to_string()]);
    let headers_for_x = real
        .iter()
        .filter(|r| r.origin == 'F' && r.diff_content.contains("x.txt"))
        .count();
    assert_eq!(headers_for_x + remaining.iter().filter(|p| *p == "x.txt").count(), 1);
}

#[test]
fn non_header_records_do_not_exclude() {
    let addition = GitDiff {
        diff_content: "diff --git a/x.txt b/x.txt".to_string(),
        new_line: Some(1),
        old_line: Some(1),
        origin: '+',
    };
    assert!(!excluded_by_headers(&vec![addition], "x.txt"));
    let real = vec![header_record("diff --git a/x.txt b/x.txt")];
    assert!(excluded_by_headers(&real, "x.txt"));
    assert!(!excluded_by_headers(&real, "y.txt"));
}

#[test]
fn synthetic_records_shape() {
    let lines = vec!["l1".to_string(), "l2".to_string()];
    let records = synthetic_records("x.txt", &lines);
    assert_eq!(records.len(), 3);
    assert_eq!(records[0].diff_content, "diff --git a/x.txt b/x.txt");
    assert_eq!(records[0].origin, 'F');
    assert_eq!(records[0].new_line, None);
    assert_eq!(records[0].old_line, None);
    assert_eq!(records[1].diff_content, "l1\n");
    assert_eq!(records[1].origin, '+');
    assert_eq!(records[1].new_line, Some(1));
    assert_eq!(records[1].old_line, Some(1));
    assert_eq!(records[2].diff_content, "l2\n");
    assert_eq!(records[2].new_line, Some(2));
}
