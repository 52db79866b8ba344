use vstd::prelude::*;

verus! {

/// The `max` of a list parameter over `num_items` entries: entries are
/// numbered from `0`, so the range ends at the last index.
pub fn last_item_index(num_items: i32) -> (r: i32)
    requires
        num_items > i32::MIN,
    ensures
        r == num_items - 1,
{
    num_items - 1
}

} // verus!
