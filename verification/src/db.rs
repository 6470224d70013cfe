//! The settings store's directory derivation. The store itself — an
//! embedded key-value database holding only "last opened repository", theme
//! and recents — is an external collaborator and lives outside the verified
//! core; only this path derivation is the engine's own logic.

use vstd::prelude::*;

use crate::utils::{join_with, spec_join, spec_split, split_char};

verus! {

/// The settings-store directory derived from a working directory: the
/// directory with its last backslash-separated segment dropped, the rest
/// joined with slashes, then `/tmp/db`. On a path without backslashes the
/// whole directory is dropped and the store lands at `/tmp/db`.
pub fn db_dir_from_cwd(cwd: &str) -> (r: String)
    ensures
        ({
            let parts = spec_split(cwd@, '\\');
            r@ == spec_join(parts.take(parts.len() - 1), '/') + "/tmp/db"@
        }),
{
    let parts = split_char(cwd, '\\');
    proof {
        reveal_strlit("/");
        assert(parts.deep_view().len() == parts@.len());
    }
    let joined = join_with(&parts, parts.len() - 1, "/");
    joined.concat("/tmp/db")
}

} // verus!
