//! Device liveness from Zenoh liveliness tokens. A token that appears
//! registers the device (or refreshes its last sighting); a token
//! that is retracted marks it offline. The token's key names the org
//! slug and the device zid.

use vstd::prelude::*;

use crate::error::{GatewayError, GatewayErrorView};
use crate::text::push_str;

verus! {

/// What a liveliness sample asks of the device table.
pub enum LivenessChange {
    /// Insert the device if new, and stamp it seen.
    Seen { org_id: i64, zid: String },
    /// Mark the device offline.
    Offline { org_id: i64, zid: String },
}

/// The org slug and zid named by a sample's key, or the error for a key
/// that does not parse (`parsed` is `None`).
pub fn sample_subject(ke: &str, parsed: Option<(String, String)>) -> (r: Result<(String, String), GatewayError>)
    ensures
        match parsed {
            None => r matches Err(e) && e@ == GatewayErrorView::BadRequest("unparsable liveliness ke: "@ + ke@),
            Some(p) => (r matches Ok(q) && q.0@ == p.0@ && q.1@ == p.1@),
        },
{
    match parsed {
        None => {
            let mut m = "unparsable liveliness ke: ".to_owned();
            push_str(&mut m, ke);
            Err(GatewayError::BadRequest(m))
        },
        Some(p) => Ok(p),
    }
}

/// The change a sample makes for device `zid` of the org `org_slug`,
/// whose id the database gave as `org_id` (`None`: no such org). A
/// `put` sample is a token that appeared; otherwise it was retracted.
pub fn liveness_change(org_slug: &str, org_id: Option<i64>, zid: String, put: bool) -> (r: Result<
    LivenessChange,
    GatewayError,
>)
    ensures
        match org_id {
            None => r matches Err(e) && e@ == GatewayErrorView::BadRequest("unknown org: "@ + org_slug@),
            Some(id) => if put {
                r matches Ok(LivenessChange::Seen { org_id: o, zid: z }) && o == id && z@ == zid@
            } else {
                r matches Ok(LivenessChange::Offline { org_id: o, zid: z }) && o == id && z@ == zid@
            },
        },
{
    match org_id {
        None => {
            let mut m = "unknown org: ".to_owned();
            push_str(&mut m, org_slug);
            Err(GatewayError::BadRequest(m))
        },
        Some(id) => if put {
            Ok(LivenessChange::Seen { org_id: id, zid })
        } else {
            Ok(LivenessChange::Offline { org_id: id, zid })
        },
    }
}

} // verus!
