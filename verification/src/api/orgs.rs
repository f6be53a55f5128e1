//! Org endpoints: creating and listing orgs is for the owner alone;
//! every user may read its own org.

use vstd::prelude::*;

use crate::db::users::User;
use crate::error::{GatewayError, GatewayErrorView};
use crate::text::str_eq;

verus! {

/// Body of `POST /v1/orgs`.
pub struct CreateOrg {
    pub slug: String,
    pub name: Option<String>,
}

/// `Ok` for the owner; otherwise `Unauthorized` with `message`.
pub fn require_owner(caller: &User, message: &str) -> (r: Result<(), GatewayError>)
    ensures
        caller.role@ == "owner"@ ==> r is Ok,
        caller.role@ != "owner"@ ==> (r matches Err(e) && e@ == GatewayErrorView::Unauthorized(message@)),
{
    if str_eq(caller.role.as_str(), "owner") {
        Ok(())
    } else {
        Err(GatewayError::Unauthorized(message.to_owned()))
    }
}

/// Who may create an org: the owner.
pub fn check_create_org(caller: &User) -> (r: Result<(), GatewayError>)
    ensures
        caller.role@ == "owner"@ ==> r is Ok,
        caller.role@ != "owner"@ ==> (r matches Err(e) && e@ == GatewayErrorView::Unauthorized(
            "only owner can create orgs"@,
        )),
{
    require_owner(caller, "only owner can create orgs")
}

/// Who may list every org: the owner.
pub fn check_list_orgs(caller: &User) -> (r: Result<(), GatewayError>)
    ensures
        caller.role@ == "owner"@ ==> r is Ok,
        caller.role@ != "owner"@ ==> (r matches Err(e) && e@ == GatewayErrorView::Unauthorized(
            "only owner can list every org"@,
        )),
{
    require_owner(caller, "only owner can list every org")
}

/// The name a new org gets: the one given, else its slug.
pub fn org_name(body: &CreateOrg) -> (r: String)
    ensures
        body.name matches Some(n) ==> r@ == n@,
        body.name is None ==> r@ == body.slug@,
{
    match &body.name {
        Some(n) => n.clone(),
        None => body.slug.clone(),
    }
}

} // verus!
