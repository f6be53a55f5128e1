//! Rows of the `devices` table.

use vstd::prelude::*;

verus! {

/// One row of the `devices` table. `last_seen_at` is the Unix second
/// at which the liveliness subscriber last saw the device.
#[derive(Debug, Clone)]
pub struct Device {
    pub id: i64,
    pub org_id: i64,
    pub zid: String,
    pub label: String,
    pub customer_id: Option<i64>,
    pub created_at: i64,
    pub last_seen_at: Option<i64>,
}

} // verus!
