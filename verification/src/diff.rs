//! The diff reconstructor. A textual tree-vs-workdir diff cannot contain
//! untracked files, so the engine synthesizes records for them: one
//! file-header record, then one addition record per physical line. Whenever
//! the real diff already emitted a file-header naming a path, the synthetic
//! entry for that path is dropped, so no file appears twice.

use vstd::prelude::*;

use crate::git::{INTERESTING, INTERESTING_STAGED};
use crate::state::{GitDiff, StatusEntry};
use crate::utils::{self, spec_path_is_file, spec_split, spec_trim_start_matches, split_char, str_eq};

verus! {

/// Whether one status entry carries an index-to-head delta and an index
/// flag: it is diffed through its staged side.
pub open spec fn staged_side(e: StatusEntry) -> bool {
    e.staged_nonempty is Some && e.status & INTERESTING_STAGED != 0
}

/// Whether one status entry scopes the real diff to its path: a file whose
/// staged delta is non-empty, or — outside the staged side — one carrying a
/// worktree flag.
pub open spec fn scoped_to_diff(e: StatusEntry) -> bool {
    &&& spec_path_is_file(e.path@)
    &&& if staged_side(e) {
        e.staged_nonempty == Some(true)
    } else {
        e.status & INTERESTING != 0
    }
}

/// Whether one status entry is a candidate for synthetic records: a file
/// carrying a worktree flag outside the staged side. Untracked files take
/// no part in a textual tree diff, so their records are synthesized.
pub open spec fn synth_candidate(e: StatusEntry) -> bool {
    spec_path_is_file(e.path@) && !staged_side(e) && e.status & INTERESTING != 0
}

/// The paths that scope the real diff, in enumeration order.
pub open spec fn spec_diff_pathspecs(entries: Seq<StatusEntry>) -> Seq<String>
    decreases entries.len(),
{
    if entries.len() == 0 {
        Seq::empty()
    } else {
        let rest = spec_diff_pathspecs(entries.drop_last());
        if scoped_to_diff(entries.last()) {
            rest + seq![entries.last().path]
        } else {
            rest
        }
    }
}

/// The synthetic candidates, in enumeration order.
pub open spec fn spec_synth_candidates(entries: Seq<StatusEntry>) -> Seq<String>
    decreases entries.len(),
{
    if entries.len() == 0 {
        Seq::empty()
    } else {
        let rest = spec_synth_candidates(entries.drop_last());
        if synth_candidate(entries.last()) {
            rest + seq![entries.last().path]
        } else {
            rest
        }
    }
}

/// Selects, from one status enumeration, the paths that scope the real diff
/// and the candidates for synthetic records.
pub fn select_diff_paths(entries: &Vec<StatusEntry>) -> (r: (Vec<String>, Vec<String>))
    ensures
        r.0@ == spec_diff_pathspecs(entries@),
        r.1@ == spec_synth_candidates(entries@),
{
    let mut pathspecs: Vec<String> = Vec::new();
    let mut candidates: Vec<String> = Vec::new();
    let mut i: usize = 0;
    proof {
        assert(entries@.take(0) =~= Seq::<StatusEntry>::empty());
    }
    while i < entries.len()
        invariant
            0 <= i <= entries@.len(),
            pathspecs@ == spec_diff_pathspecs(entries@.take(i as int)),
            candidates@ == spec_synth_candidates(entries@.take(i as int)),
        decreases entries@.len() - i,
    {
        let ghost pre = entries@.take(i as int);
        let e = &entries[i];
        if utils::path_is_file(e.path.as_str()) {
            if matches!(e.staged_nonempty, Some(_)) && (e.status & INTERESTING_STAGED) != 0 {
                if matches!(e.staged_nonempty, Some(true)) {
                    pathspecs.push(e.path.clone());
                }
            } else {
                if (e.status & INTERESTING) != 0 {
                    pathspecs.push(e.path.clone());
                    candidates.push(e.path.clone());
                }
            }
        }
        proof {
            assert(entries@.take(i + 1).drop_last() =~= pre);
            assert(entries@.take(i + 1).last() == entries@[i as int]);
        }
        i += 1;
    }
    proof {
        assert(entries@.take(entries@.len() as int) =~= entries@);
    }
    (pathspecs, candidates)
}

/// Every selected pathspec is the path of one of the status entries — in
/// particular, it inherits whatever holds of every enumerated path, such as
/// holding no NUL character.
pub proof fn lemma_selected_paths_from_entries(entries: Seq<StatusEntry>)
    ensures
        forall|k: int|
            0 <= k < spec_diff_pathspecs(entries).len() ==> exists|i: int|
                0 <= i < entries.len() && #[trigger] spec_diff_pathspecs(entries)[k]
                    == entries[i].path,
    decreases entries.len(),
{
    if entries.len() == 0 {
    } else {
        lemma_selected_paths_from_entries(entries.drop_last());
        let rest = spec_diff_pathspecs(entries.drop_last());
        let full = spec_diff_pathspecs(entries);
        assert forall|k: int| 0 <= k < full.len() implies exists|i: int|
            0 <= i < entries.len() && #[trigger] full[k] == entries[i].path by {
            if k < rest.len() {
                assert(full[k] == rest[k]);
                let i = choose|i: int|
                    0 <= i < entries.drop_last().len() && rest[k] == entries.drop_last()[i].path;
                assert(entries.drop_last()[i] == entries[i]);
                assert(full[k] == entries[i].path);
            } else {
                assert(full[k] == entries.last().path);
                assert(entries[entries.len() - 1] == entries.last());
            }
        }
    }
}

/// A path that the status enumeration reports with neither a worktree nor
/// an index flag — a file just discarded, say — is never selected: it
/// neither scopes the real diff nor becomes a synthetic candidate.
pub proof fn lemma_unflagged_path_not_selected(entries: Seq<StatusEntry>, p: Seq<char>)
    requires
        forall|i: int|
            0 <= i < entries.len() && (#[trigger] entries[i]).path@ == p ==> entries[i].status
                & INTERESTING == 0 && entries[i].status & INTERESTING_STAGED == 0,
    ensures
        forall|k: int|
            0 <= k < spec_diff_pathspecs(entries).len() ==> (#[trigger] spec_diff_pathspecs(
                entries,
            )[k]).view() != p,
        forall|k: int|
            0 <= k < spec_synth_candidates(entries).len() ==> (#[trigger] spec_synth_candidates(
                entries,
            )[k]).view() != p,
    decreases entries.len(),
{
    if entries.len() == 0 {
    } else {
        assert forall|i: int|
            0 <= i < entries.drop_last().len() && (#[trigger] entries.drop_last()[i]).path@
                == p implies entries.drop_last()[i].status & INTERESTING == 0
            && entries.drop_last()[i].status & INTERESTING_STAGED == 0 by {
            assert(entries.drop_last()[i] == entries[i]);
        }
        lemma_unflagged_path_not_selected(entries.drop_last(), p);
        let last = entries.last();
        assert(entries[entries.len() - 1] == last);
        let specs_rest = spec_diff_pathspecs(entries.drop_last());
        let specs_full = spec_diff_pathspecs(entries);
        assert forall|k: int| 0 <= k < specs_full.len() implies (#[trigger] specs_full[k]).view()
            != p by {
            if k < specs_rest.len() {
                assert(specs_full[k] == specs_rest[k]);
            } else {
                assert(specs_full[k] == last.path);
                assert(scoped_to_diff(last));
            }
        }
        let cands_rest = spec_synth_candidates(entries.drop_last());
        let cands_full = spec_synth_candidates(entries);
        assert forall|k: int| 0 <= k < cands_full.len() implies (#[trigger] cands_full[k]).view()
            != p by {
            if k < cands_rest.len() {
                assert(cands_full[k] == cands_rest[k]);
            } else {
                assert(cands_full[k] == last.path);
                assert(synth_candidate(last));
            }
        }
    }
}

/// Whether one diff record is a file-header record whose header line names
/// `p` as either of its two path tokens.
pub open spec fn record_excludes(rec: GitDiff, p: Seq<char>) -> bool {
    &&& rec.origin == 'F'
    &&& ({
        let parts = spec_split(rec.diff_content@, ' ');
        &&& parts.len() >= 4
        &&& (p == spec_trim_start_matches(parts[2], "a/"@) || p == spec_trim_start_matches(
            parts[3],
            "b/"@,
        ))
    })
}

/// Whether any file-header record of the real diff names `p`.
pub open spec fn header_excludes(recs: Seq<GitDiff>, p: Seq<char>) -> bool {
    exists|i: int| 0 <= i < recs.len() && record_excludes(recs[i], p)
}

/// The synthetic candidates that survive de-duplication: the candidate
/// paths, in order, that no file-header record of the real diff names.
pub open spec fn spec_remaining(recs: Seq<GitDiff>, candidates: Seq<Seq<char>>) -> Seq<Seq<char>>
    decreases candidates.len(),
{
    if candidates.len() == 0 {
        Seq::empty()
    } else {
        let rest = spec_remaining(recs, candidates.drop_last());
        if header_excludes(recs, candidates.last()) {
            rest
        } else {
            rest + seq![candidates.last()]
        }
    }
}

/// Whether any file-header record of `recs` names the path `p`.
pub fn excluded_by_headers(recs: &Vec<GitDiff>, p: &str) -> (r: bool)
    ensures
        r == header_excludes(recs@, p@),
{
    let mut j: usize = 0;
    while j < recs.len()
        invariant
            0 <= j <= recs@.len(),
            forall|i: int| 0 <= i < j ==> !record_excludes(recs@[i], p@),
        decreases recs@.len() - j,
    {
        let rec = &recs[j];
        if rec.origin == 'F' {
            let tokens = split_char(rec.diff_content.as_str(), ' ');
            proof {
                assert(tokens.deep_view().len() == tokens@.len());
            }
            if tokens.len() >= 4 {
                let (origin_name, current_name) = utils::get_origin_and_current_name_from_line(
                    rec.diff_content.as_str(),
                );
                if str_eq(p, origin_name.as_str()) || str_eq(p, current_name.as_str()) {
                    proof {
                        assert(record_excludes(recs@[j as int], p@));
                    }
                    return true;
                }
            }
        }
        j += 1;
    }
    false
}

/// Filters the synthetic candidates, dropping every path that a file-header
/// record of the real diff names.
pub fn remaining_candidates(recs: &Vec<GitDiff>, candidates: &Vec<String>) -> (r: Vec<String>)
    ensures
        r.deep_view() == spec_remaining(recs@, candidates.deep_view()),
{
    let mut r: Vec<String> = Vec::new();
    let mut i: usize = 0;
    proof {
        assert(candidates.deep_view().take(0) =~= Seq::<Seq<char>>::empty());
        assert(r.deep_view() =~= Seq::<Seq<char>>::empty());
    }
    while i < candidates.len()
        invariant
            0 <= i <= candidates@.len(),
            candidates.deep_view().len() == candidates@.len(),
            r.deep_view() == spec_remaining(recs@, candidates.deep_view().take(i as int)),
        decreases candidates@.len() - i,
    {
        let ghost pre = candidates.deep_view().take(i as int);
        let ghost r_old = r.deep_view();
        if !excluded_by_headers(recs, candidates[i].as_str()) {
            r.push(candidates[i].clone());
            proof {
                assert(r.deep_view() =~= r_old + seq![candidates.deep_view()[i as int]]);
            }
        }
        proof {
            assert(candidates.deep_view().take(i + 1).drop_last() =~= pre);
            assert(candidates.deep_view().take(i + 1).last() == candidates.deep_view()[i as int]);
        }
        i += 1;
    }
    proof {
        assert(candidates.deep_view().take(candidates@.len() as int) =~= candidates.deep_view());
    }
    r
}

/// De-duplication: a path named by a file-header record of the real diff
/// never survives as a synthetic candidate, so a file whose header the real
/// diff already emitted appears exactly once in the reconstructed output.
pub proof fn lemma_untracked_deduplicated(
    recs: Seq<GitDiff>,
    candidates: Seq<Seq<char>>,
    p: Seq<char>,
)
    requires
        header_excludes(recs, p),
    ensures
        !spec_remaining(recs, candidates).contains(p),
    decreases candidates.len(),
{
    if candidates.len() == 0 {
    } else {
        lemma_untracked_deduplicated(recs, candidates.drop_last(), p);
        let rest = spec_remaining(recs, candidates.drop_last());
        let full = spec_remaining(recs, candidates);
        if !header_excludes(recs, candidates.last()) {
            assert forall|k: int| 0 <= k < full.len() implies full[k] != p by {
                if k < rest.len() {
                    assert(full[k] == rest[k]);
                    assert(rest.contains(rest[k]) == exists|m: int|
                        0 <= m < rest.len() && rest[m] == rest[k]);
                } else {
                    assert(full[k] == candidates.last());
                }
            }
        } else {
            assert forall|k: int| 0 <= k < full.len() implies full[k] != p by {
                assert(full[k] == rest[k]);
            }
        }
        if full.contains(p) {
            let k = choose|k: int| 0 <= k < full.len() && full[k] == p;
            assert(false);
        }
    }
}

/// Every survivor of de-duplication is one of the candidates and is not
/// named by any file-header record.
pub proof fn lemma_remaining_sound(recs: Seq<GitDiff>, candidates: Seq<Seq<char>>)
    ensures
        forall|k: int|
            0 <= k < spec_remaining(recs, candidates).len() ==> {
                &&& candidates.contains(#[trigger] spec_remaining(recs, candidates)[k])
                &&& !header_excludes(recs, spec_remaining(recs, candidates)[k])
            },
    decreases candidates.len(),
{
    if candidates.len() == 0 {
    } else {
        lemma_remaining_sound(recs, candidates.drop_last());
        let rest = spec_remaining(recs, candidates.drop_last());
        let full = spec_remaining(recs, candidates);
        assert forall|k: int| 0 <= k < full.len() implies {
            &&& candidates.contains(#[trigger] full[k])
            &&& !header_excludes(recs, full[k])
        } by {
            if k < rest.len() {
                assert(full[k] == rest[k]);
                assert(candidates.drop_last().contains(rest[k]));
                let m = choose|m: int|
                    0 <= m < candidates.drop_last().len() && candidates.drop_last()[m] == rest[k];
                assert(candidates[m] == rest[k]);
            } else {
                assert(full[k] == candidates.last());
                assert(candidates[candidates.len() - 1] == candidates.last());
            }
        }
    }
}

/// The shape of the records synthesized for one untracked file: one
/// file-header record carrying no line numbers, then one addition record per
/// line, numbered from 1 on both line axes, each line's text with a line
/// feed appended.
pub open spec fn synth_records_ok(p: Seq<char>, lines: Seq<Seq<char>>, r: Seq<GitDiff>) -> bool {
    &&& r.len() == 1 + lines.len()
    &&& r[0].origin == 'F'
    &&& r[0].old_line is None
    &&& r[0].new_line is None
    &&& r[0].diff_content@ == "diff --git a/"@ + p + " b/"@ + p
    &&& forall|i: int|
        0 <= i < lines.len() ==> {
            &&& (#[trigger] r[i + 1]).origin == '+'
            &&& r[i + 1].diff_content@ == lines[i] + "\n"@
            &&& r[i + 1].old_line == Some((i + 1) as u32)
            &&& r[i + 1].new_line == Some((i + 1) as u32)
        }
}

/// Synthesizes the diff records for one untracked file from its path and
/// its physical lines.
pub fn synthetic_records(path: &str, lines: &Vec<String>) -> (r: Vec<GitDiff>)
    requires
        lines@.len() < 0x1_0000_0000,
    ensures
        synth_records_ok(path@, lines.deep_view(), r@),
{
    let mut r: Vec<GitDiff> = Vec::new();
    let mut header = String::from_str("diff --git a/");
    header.append(path);
    header.append(" b/");
    header.append(path);
    r.push(GitDiff { diff_content: header, new_line: None, old_line: None, origin: 'F' });
    let mut i: usize = 0;
    while i < lines.len()
        invariant
            lines@.len() < 0x1_0000_0000,
            lines.deep_view().len() == lines@.len(),
            0 <= i <= lines@.len(),
            r@.len() == 1 + i,
            r@[0].origin == 'F',
            r@[0].old_line is None,
            r@[0].new_line is None,
            r@[0].diff_content@ == "diff --git a/"@ + path@ + " b/"@ + path@,
            forall|j: int|
                0 <= j < i ==> {
                    &&& (#[trigger] r@[j + 1]).origin == '+'
                    &&& r@[j + 1].diff_content@ == lines.deep_view()[j] + "\n"@
                    &&& r@[j + 1].old_line == Some((j + 1) as u32)
                    &&& r@[j + 1].new_line == Some((j + 1) as u32)
                },
        decreases lines@.len() - i,
    {
        let mut content = lines[i].clone();
        content.append("\n");
        let ln: u32 = (i + 1) as u32;
        r.push(GitDiff { diff_content: content, new_line: Some(ln), old_line: Some(ln), origin: '+' });
        i += 1;
    }
    r
}

} // verus!
