//! Rows of the `audit` table. Point-in-time actions fill `ts`,
//! `action` and `detail`; a `tunnel.session` row also carries the
//! close time, byte counters, peer and request id.

use vstd::prelude::*;

verus! {

/// One row of the `audit` table. `detail` is JSON for current rows
/// and may be free text for older ones.
#[derive(Debug)]
pub struct AuditEntry {
    pub id: i64,
    pub ts: i64,
    pub ts_close: Option<i64>,
    pub user_id: Option<i64>,
    pub device_id: Option<i64>,
    pub tunnel_id: Option<i64>,
    pub request_id: Option<String>,
    pub action: String,
    pub peer: Option<String>,
    pub bytes_up: Option<i64>,
    pub bytes_down: Option<i64>,
    pub detail: Option<String>,
}

/// Milliseconds to whole seconds, rounding toward zero as integer
/// division does: the unit of every `audit.ts`, including the open and
/// close times of a tunnel session, which are measured in
/// milliseconds.
pub open spec fn ms_to_secs(ms: i64) -> int {
    if ms >= 0 {
        ms / 1000
    } else {
        -((-ms) / 1000)
    }
}

/// The stored seconds of a time measured in milliseconds.
pub fn stored_secs(ms: i64) -> (r: i64)
    ensures
        r == ms_to_secs(ms),
{
    if ms >= 0 {
        ms / 1000
    } else {
        let pos: i128 = 0i128 - ms as i128;
        let q: i128 = pos / 1000;
        (0i128 - q) as i64
    }
}

} // verus!
