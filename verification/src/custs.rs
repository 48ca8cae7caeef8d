//! The lookup rule of the custom-profile callback table.
//!
//! The SDK keeps a small table of per-profile callback records, each
//! tagged with a task identifier; an invalid identifier marks the end of
//! the used entries. The lookup walks the table in order: a matching tag
//! yields that record, the invalid tag ends the search empty-handed.

use vstd::prelude::*;

verus! {

/// A kernel task identifier as carried by the callback table.
pub type KeApiId = u16;

/// The index of the record for `target`: the first entry tagged `target`,
/// unless the `invalid` end marker is seen first.
pub open spec fn spec_find_callbacks(
    ids: Seq<KeApiId>,
    from: int,
    target: KeApiId,
    invalid: KeApiId,
) -> Option<int>
    decreases ids.len() - from,
{
    if from < 0 || from >= ids.len() {
        None
    } else if ids[from] == target {
        Some(from)
    } else if ids[from] == invalid {
        None
    } else {
        spec_find_callbacks(ids, from + 1, target, invalid)
    }
}

/// Finds the callback record tagged `task_id` among the table's task
/// identifiers, stopping at the `invalid_id` end marker.
pub fn custs_find_func_callbacks(
    task_ids: &Vec<KeApiId>,
    task_id: KeApiId,
    invalid_id: KeApiId,
) -> (r: Option<usize>)
    ensures
        match r {
            Some(i) => spec_find_callbacks(task_ids@, 0, task_id, invalid_id) == Some(i as int),
            None => spec_find_callbacks(task_ids@, 0, task_id, invalid_id) is None,
        },
{
    let mut i: usize = 0;
    while i < task_ids.len()
        invariant
            i <= task_ids@.len(),
            spec_find_callbacks(task_ids@, 0, task_id, invalid_id) == spec_find_callbacks(
                task_ids@,
                i as int,
                task_id,
                invalid_id,
            ),
        decreases task_ids@.len() - i,
    {
        if task_ids[i] == task_id {
            return Some(i);
        }
        if task_ids[i] == invalid_id {
            return None;
        }
        i = i + 1;
    }
    None
}

} // verus!
