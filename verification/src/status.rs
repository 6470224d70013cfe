//! The status classifier: derives per-file status views from one status
//! enumeration. A view keeps exactly the entries that denote an actual file
//! and carry at least one flag of the view's mask.

use vstd::prelude::*;

use crate::state::{FileStatus, StatusEntry};
use crate::utils::spec_path_is_file;

verus! {

/// Whether one status entry belongs to the view selected by `mask`.
pub open spec fn interesting_entry(e: StatusEntry, mask: u32) -> bool {
    (e.status & mask) != 0 && spec_path_is_file(e.path@)
}

/// The view selected by `mask`: the interesting entries, in enumeration
/// order, each reduced to its path and status bits.
pub open spec fn spec_classify(entries: Seq<StatusEntry>, mask: u32) -> Seq<FileStatus>
    decreases entries.len(),
{
    if entries.len() == 0 {
        Seq::empty()
    } else {
        let rest = spec_classify(entries.drop_last(), mask);
        if interesting_entry(entries.last(), mask) {
            rest + seq![
                FileStatus { file_name: entries.last().path, status: entries.last().status },
            ]
        } else {
            rest
        }
    }
}

/// Computes the view selected by `mask` over one status enumeration.
pub fn classify(entries: &Vec<StatusEntry>, mask: u32) -> (r: Vec<FileStatus>)
    ensures
        r@ == spec_classify(entries@, mask),
{
    let mut r: Vec<FileStatus> = Vec::new();
    let mut i: usize = 0;
    proof {
        assert(entries@.take(0) =~= Seq::<StatusEntry>::empty());
    }
    while i < entries.len()
        invariant
            0 <= i <= entries@.len(),
            r@ == spec_classify(entries@.take(i as int), mask),
        decreases entries@.len() - i,
    {
        let ghost pre = entries@.take(i as int);
        let e = &entries[i];
        if (e.status & mask) != 0 && crate::utils::path_is_file(e.path.as_str()) {
            r.push(FileStatus { file_name: e.path.clone(), status: e.status });
        }
        proof {
            assert(entries@.take(i + 1).drop_last() =~= pre);
            assert(entries@.take(i + 1).last() == entries@[i as int]);
        }
        i += 1;
    }
    proof {
        assert(entries@.take(entries@.len() as int) =~= entries@);
    }
    r
}

/// Every path of a classified view carries at least one flag of the view's
/// mask and denotes an actual file; entries with no flag of the mask — such
/// as ignored or directory-only entries — never appear.
pub proof fn lemma_classified_paths_are_flagged(entries: Seq<StatusEntry>, mask: u32)
    ensures
        forall|k: int|
            0 <= k < spec_classify(entries, mask).len() ==> {
                &&& (#[trigger] spec_classify(entries, mask)[k]).status & mask != 0
                &&& spec_path_is_file(spec_classify(entries, mask)[k].file_name@)
            },
    decreases entries.len(),
{
    if entries.len() == 0 {
    } else {
        lemma_classified_paths_are_flagged(entries.drop_last(), mask);
        let rest = spec_classify(entries.drop_last(), mask);
        let full = spec_classify(entries, mask);
        assert forall|k: int| 0 <= k < full.len() implies {
            &&& (#[trigger] full[k]).status & mask != 0
            &&& spec_path_is_file(full[k].file_name@)
        } by {
            if k < rest.len() {
                assert(full[k] == rest[k]);
            } else {
                assert(interesting_entry(entries.last(), mask));
                assert(full[k] == FileStatus {
                    file_name: entries.last().path,
                    status: entries.last().status,
                });
            }
        }
    }
}

/// The classified view is a pure function of the status enumeration: with no
/// change to the enumeration, two classifications are identical. Staging
/// everything twice therefore yields the same staged set both times.
pub proof fn lemma_classify_deterministic(e1: Seq<StatusEntry>, e2: Seq<StatusEntry>, mask: u32)
    requires
        e1 == e2,
    ensures
        spec_classify(e1, mask) == spec_classify(e2, mask),
{
}

} // verus!
