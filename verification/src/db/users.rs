//! Rows of the `users` table.

use vstd::prelude::*;

verus! {

/// One row of the `users` table. `device_scope` is either `*` or a
/// JSON array of device ids.
#[derive(Debug, Clone)]
pub struct User {
    pub id: i64,
    pub org_id: i64,
    pub name: String,
    pub role: String,
    pub device_scope: String,
    pub tunnel_scope: String,
    pub expires_at: Option<i64>,
    pub created_at: i64,
    pub last_used_at: Option<i64>,
}

} // verus!
