//! Claim endpoints: `POST /v1/claim` turns the pending claim into the
//! owner account; `GET /v1/claim/status` tells whether that happened.

use vstd::prelude::*;

use crate::db::users::User;
use crate::error::{GatewayError, GatewayErrorView};
use crate::text::str_eq;

verus! {

/// Body of `POST /v1/claim`.
pub struct ClaimRequest {
    pub token: String,
    pub name: String,
    pub org: Option<String>,
}

/// The owner's name when the request gives none.
pub fn default_owner_name() -> (r: String)
    ensures
        r@ == "owner"@,
{
    "owner".to_owned()
}

/// Answer of a successful claim: the owner's id, bearer token and org
/// slug.
pub struct ClaimResponse {
    pub user_id: i64,
    pub token: String,
    pub org: String,
}

/// Whether the gateway has an owner, and whether a claim is waiting.
pub struct ClaimStatus {
    pub claimed: bool,
    pub can_claim: bool,
}

/// Index of the first user whose role is `owner`, or the error
/// answered when the claim left none.
pub fn find_owner(users: &Vec<User>) -> (r: Result<usize, GatewayError>)
    ensures
        match r {
            Ok(i) => i < users@.len() && users@[i as int].role@ == "owner"@ && forall|j: int|
                0 <= j < i ==> (#[trigger] users@[j]).role@ != "owner"@,
            Err(e) => e@ == GatewayErrorView::BadRequest("claim failed"@) && forall|j: int|
                0 <= j < users@.len() ==> (#[trigger] users@[j]).role@ != "owner"@,
        },
{
    let mut i: usize = 0;
    while i < users.len()
        invariant
            i <= users@.len(),
            forall|j: int| 0 <= j < i ==> (#[trigger] users@[j]).role@ != "owner"@,
        decreases users@.len() - i,
    {
        if str_eq(users[i].role.as_str(), "owner") {
            return Ok(i);
        }
        i = i + 1;
    }
    Err(GatewayError::BadRequest("claim failed".to_owned()))
}

} // verus!
