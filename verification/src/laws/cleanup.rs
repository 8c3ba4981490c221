//! The cleanup of received files.

use crate::file_transfer::{is_outdated, should_remove};
use vstd::prelude::*;

verus! {

/// Every regular file whose modification time is known and lies more than the retention before now
/// is removed, whatever that time is, and no other file is.
pub proof fn old_files_are_removed(modified: int, now: int, retention: int)
    requires
        retention >= 0,
    ensures
        is_outdated(true, Some(modified), now, retention) <==> modified + retention < now,
{
}

/// Directories, and files whose modification time is unknown, are never removed.
pub proof fn only_dated_files_are_removed(modified: Option<int>, now: int, retention: int)
    ensures
        !is_outdated(false, modified, now, retention),
        !is_outdated(true, None, now, retention),
{
}

/// Only the age of a file counts: shifting the clock and the file together changes nothing.
pub proof fn only_the_age_counts(modified: int, now: int, retention: int, shift: int)
    ensures
        is_outdated(true, Some(modified + shift), now + shift, retention) == is_outdated(
            true,
            Some(modified),
            now,
            retention,
        ),
{
}

/// A cleanup removes exactly the regular files whose modification time is known and lies more than
/// the retention before now: every such file, whatever that time is, and nothing else.
pub proof fn cleanups_remove_what_is_past_its_time(
    is_file: bool,
    modified_ns: Option<i128>,
    now_ns: i128,
    retention_ns: u128,
    remove: bool,
)
    requires
        call_ensures(should_remove, (is_file, modified_ns, now_ns, retention_ns), remove),
    ensures
        remove <==> is_file && (modified_ns matches Some(modified) && modified + retention_ns
            < now_ns),
{
}

} // verus!
