//! Cursor pagination shared by the listing endpoints: rows come newest
//! first, and a full page hands out the id of its last row as the
//! cursor for the next one.

use vstd::prelude::*;

verus! {

/// The cursor of a page of `len` rows whose last row has id `last_id`,
/// asked with `limit`: the last id when the page is full, else none.
pub open spec fn page_cursor(len: nat, last_id: Option<i64>, limit: i64) -> Option<i64> {
    if len >= limit {
        last_id
    } else {
        None
    }
}

/// The cursor for a page of `len` rows ending with `last_id`.
pub fn next_cursor(len: usize, last_id: Option<i64>, limit: i64) -> (r: Option<i64>)
    ensures
        r == page_cursor(len as nat, last_id, limit),
{
    if len as i128 >= limit as i128 {
        last_id
    } else {
        None
    }
}

/// A short page ends the listing; a full page with rows hands out its
/// last id.
pub proof fn law_cursor_only_on_full_pages(len: nat, last_id: Option<i64>, limit: i64)
    ensures
        len < limit ==> page_cursor(len, last_id, limit) is None,
        len >= limit ==> page_cursor(len, last_id, limit) == last_id,
{
}

} // verus!
