use vstd::prelude::*;
use crate::paths::{backup_path_spec, lemma_backup_path_differs};

verus! {

// The backup step, over a model of the slice of the disk it touches: a map
// from path texts to file contents.

/// What guaranteeing a backup does to the files. When no backup exists, the
/// target's bytes are captured beside it under the backup path; an existing
/// backup is never overwritten, even when the target has changed since. A
/// missing target leaves the files as they are (the step itself fails then).
pub open spec fn ensure_backup_spec(files: Map<Seq<char>, Seq<u8>>, target: Seq<char>) -> Map<
    Seq<char>,
    Seq<u8>,
> {
    if files.dom().contains(backup_path_spec(target)) {
        files
    } else if files.dom().contains(target) {
        files.insert(backup_path_spec(target), files[target])
    } else {
        files
    }
}

/// Backup idempotence: guarantee a backup, let the target change to anything,
/// guarantee again -- the backup holds the target's bytes as they stood at
/// the first call; and a backup that already existed is never touched.
pub proof fn lemma_backup_idempotent(
    files: Map<Seq<char>, Seq<u8>>,
    target: Seq<char>,
    later: Seq<u8>,
)
    requires
        files.dom().contains(target),
    ensures
        ({
            let first = ensure_backup_spec(files, target);
            let second = ensure_backup_spec(first.insert(target, later), target);
            &&& second.dom().contains(backup_path_spec(target))
            &&& second[backup_path_spec(target)] == if files.dom().contains(
                backup_path_spec(target),
            ) {
                files[backup_path_spec(target)]
            } else {
                files[target]
            }
        }),
{
    lemma_backup_path_differs(target);
}

} // verus!
