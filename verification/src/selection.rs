//! Which row of a list stays selected when the list changes.

use vstd::prelude::*;

verus! {

/// The row that is selected once the selected row of a list of `len` rows
/// was deleted: the row that followed it, which has moved to its place; the
/// new last row if the deleted one was the last; none if the list is empty
/// now.
pub open spec fn spec_after_delete(selected: usize, len: usize) -> Option<usize> {
    if len <= 1 {
        None
    } else if selected >= len - 1 {
        Some((len - 2) as usize)
    } else {
        Some(selected)
    }
}

/// Moves the selection after the selected row was deleted from a list that
/// had `len` rows. What it gives is a row of the list as it is now.
pub fn after_delete(selected: usize, len: usize) -> (now: Option<usize>)
    ensures
        now == spec_after_delete(selected, len),
        now matches Some(row) ==> row < len - 1,
{
    if len <= 1 {
        None
    } else if selected >= len - 1 {
        Some(len - 2)
    } else {
        Some(selected)
    }
}

} // verus!
