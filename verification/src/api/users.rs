//! User endpoints. Creating and deleting users is for the owner, who
//! cannot delete themself; a token may be minted by the owner or by
//! the user it is for, and only for a user of the caller's org.

use vstd::prelude::*;

use crate::api::orgs::require_owner;
use crate::db::users::User;
use crate::error::{GatewayError, GatewayErrorView};

verus! {

/// Body of `POST /v1/users`.
pub struct CreateUser {
    pub name: String,
    pub role: String,
}

/// The role a new user gets when the request gives none.
pub fn default_role() -> (r: String)
    ensures
        r@ == "operator"@,
{
    "operator".to_owned()
}

/// Answer of a user creation: the user and its raw token.
pub struct CreateUserResponse {
    pub user: User,
    pub token: String,
}

/// Answer of a token mint: the raw token.
pub struct MintTokenResponse {
    pub token: String,
}

/// Who may create a user: the owner.
pub fn check_create_user(caller: &User) -> (r: Result<(), GatewayError>)
    ensures
        caller.role@ == "owner"@ ==> r is Ok,
        caller.role@ != "owner"@ ==> (r matches Err(e) && e@ == GatewayErrorView::Unauthorized(
            "only owner can create users"@,
        )),
{
    require_owner(caller, "only owner can create users")
}

/// Who may delete the user `target_id`: the owner, and not themself.
pub fn check_delete_user(caller: &User, target_id: i64) -> (r: Result<(), GatewayError>)
    ensures
        caller.role@ != "owner"@ ==> (r matches Err(e) && e@ == GatewayErrorView::Unauthorized(
            "only owner can delete users"@,
        )),
        caller.role@ == "owner"@ && caller.id == target_id ==> (r matches Err(e) && e@
            == GatewayErrorView::BadRequest("cannot delete yourself"@)),
        caller.role@ == "owner"@ && caller.id != target_id ==> r is Ok,
{
    match require_owner(caller, "only owner can delete users") {
        Err(e) => Err(e),
        Ok(()) => if caller.id == target_id {
            Err(GatewayError::BadRequest("cannot delete yourself".to_owned()))
        } else {
            Ok(())
        },
    }
}

/// The answer to a delete: done when a row of the caller's org went,
/// `NotFound` otherwise.
pub fn delete_outcome(deleted: bool) -> (r: Result<(), GatewayError>)
    ensures
        deleted ==> r is Ok,
        !deleted ==> (r matches Err(e) && e@ == GatewayErrorView::NotFound),
{
    if deleted {
        Ok(())
    } else {
        Err(GatewayError::NotFound)
    }
}

/// Who may mint a token for `user_id`: the owner or that user.
pub fn check_mint_token(caller: &User, user_id: i64) -> (r: Result<(), GatewayError>)
    ensures
        caller.role@ == "owner"@ || caller.id == user_id ==> r is Ok,
        !(caller.role@ == "owner"@ || caller.id == user_id) ==> (r matches Err(e) && e@
            == GatewayErrorView::Unauthorized("not permitted"@)),
{
    if crate::text::str_eq(caller.role.as_str(), "owner") || caller.id == user_id {
        Ok(())
    } else {
        Err(GatewayError::Unauthorized("not permitted".to_owned()))
    }
}

/// A token is minted only for a user of the caller's org; another
/// org's user reads as not found.
pub fn check_mint_target(target: &User, org_id: i64) -> (r: Result<(), GatewayError>)
    ensures
        target.org_id == org_id ==> r is Ok,
        target.org_id != org_id ==> (r matches Err(e) && e@ == GatewayErrorView::NotFound),
{
    if target.org_id != org_id {
        Err(GatewayError::NotFound)
    } else {
        Ok(())
    }
}

} // verus!
