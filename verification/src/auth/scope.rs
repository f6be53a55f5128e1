//! Device-scope enforcement for non-owner roles. `owner`, `admin`,
//! `support` and `viewer` see every device; `customer` is restricted
//! to its `device_scope`, which is `*` or a JSON array of device ids.

use vstd::prelude::*;

use crate::db::users::User;
use crate::error::{result_view, GatewayError, GatewayErrorView};
use crate::json::{parse_json_shape, JsonShape, JsonShapeView, json_shape};
use crate::text::{dec_int, push_decimal_i64, push_str, str_eq};

verus! {

/// Roles that see every device.
pub open spec fn unscoped_role(role: Seq<char>) -> bool {
    role == "owner"@ || role == "admin"@ || role == "support"@ || role == "viewer"@
}

/// What checking `user` against `device_id` answers, given the parsed
/// `device_scope`: unscoped roles and a `*` scope pass, a customer
/// passes when its array holds the id, and every other case is refused
/// with the error and message shown.
pub open spec fn device_access(user: User, device_id: i64, scope: JsonShapeView) -> Result<(), GatewayErrorView> {
    if unscoped_role(user.role@) {
        Ok(())
    } else if user.role@ == "customer"@ {
        if user.device_scope@ == "*"@ {
            Ok(())
        } else {
            match scope {
                JsonShapeView::Invalid(e) => Err(GatewayErrorView::Config("device_scope JSON: "@ + e)),
                JsonShapeView::Array(ids) => if ids.contains(Some(device_id)) {
                    Ok(())
                } else {
                    Err(
                        GatewayErrorView::Unauthorized(
                            "user "@ + dec_int(user.id as int) + " not authorised for device "@ + dec_int(
                                device_id as int,
                            ),
                        ),
                    )
                },
                _ => Err(GatewayErrorView::Config("device_scope must be `*` or a JSON array"@)),
            }
        }
    } else {
        Err(GatewayErrorView::Unauthorized("unknown role `"@ + user.role@ + "`"@))
    }
}

/// Whether `ids` holds the integer `id`.
fn holds_id(ids: &Vec<Option<i64>>, id: i64) -> (r: bool)
    ensures
        r == ids@.contains(Some(id)),
{
    let mut i: usize = 0;
    while i < ids.len()
        invariant
            i <= ids@.len(),
            forall|j: int| 0 <= j < i ==> ids@[j] != Some(id),
        decreases ids@.len() - i,
    {
        if ids[i] == Some(id) {
            assert(ids@[i as int] == Some(id));
            return true;
        }
        i = i + 1;
    }
    false
}

/// Whether `user` may operate on `device_id`, given its parsed
/// `device_scope`. Errors carry the reason: a scope that is not JSON,
/// a scope that is not an array, a customer outside its scope, or an
/// unknown role.
pub fn check_device_with_scope(user: &User, device_id: i64, scope: &JsonShape) -> (r: Result<(), GatewayError>)
    ensures
        result_view(r, |u: ()| u) == device_access(*user, device_id, scope@),
{
    let role = user.role.as_str();
    if str_eq(role, "owner") || str_eq(role, "admin") || str_eq(role, "support") || str_eq(role, "viewer") {
        return Ok(());
    }
    if str_eq(role, "customer") {
        if str_eq(user.device_scope.as_str(), "*") {
            return Ok(());
        }
        match scope {
            JsonShape::Invalid(e) => {
                let mut m = "device_scope JSON: ".to_owned();
                push_str(&mut m, e.as_str());
                Err(GatewayError::Config(m))
            },
            JsonShape::Array(ids) => {
                if holds_id(ids, device_id) {
                    return Ok(());
                }
                let mut m = "user ".to_owned();
                push_decimal_i64(&mut m, user.id);
                push_str(&mut m, " not authorised for device ");
                push_decimal_i64(&mut m, device_id);
                Err(GatewayError::Unauthorized(m))
            },
            _ => Err(GatewayError::Config("device_scope must be `*` or a JSON array".to_owned())),
        }
    } else {
        let mut m = "unknown role `".to_owned();
        push_str(&mut m, role);
        push_str(&mut m, "`");
        Err(GatewayError::Unauthorized(m))
    }
}

/// What checking `user` against `device_id` answers, the scope being
/// parsed as JSON only for a customer whose scope is not `*`.
pub open spec fn access_of(user: User, device_id: i64) -> Result<(), GatewayErrorView> {
    if user.role@ == "customer"@ && user.device_scope@ != "*"@ {
        device_access(user, device_id, json_shape(user.device_scope@))
    } else {
        device_access(user, device_id, JsonShapeView::Other)
    }
}

/// Whether `user` may operate on `device_id` (`Ok`), or why not. The
/// `device_scope` is parsed as JSON only for a customer whose scope is
/// not `*`; every other case is decided without it.
pub fn check_device(user: &User, device_id: i64) -> (r: Result<(), GatewayError>)
    ensures
        result_view(r, |u: ()| u) == access_of(*user, device_id),
{
    let role = user.role.as_str();
    if str_eq(role, "customer") && !str_eq(user.device_scope.as_str(), "*") {
        let scope = parse_json_shape(user.device_scope.as_str());
        check_device_with_scope(user, device_id, &scope)
    } else {
        check_device_with_scope(user, device_id, &JsonShape::Other)
    }
}

/// Owner, admin, support and viewer reach every device whatever their
/// scope says; a customer with scope `*` does too; a customer with an
/// array scope reaches exactly the devices it lists.
pub proof fn law_scope_bypass_and_membership(user: User, device_id: i64, scope: JsonShapeView)
    ensures
        unscoped_role(user.role@) ==> device_access(user, device_id, scope) is Ok,
        user.role@ == "customer"@ && user.device_scope@ == "*"@ ==> device_access(user, device_id, scope) is Ok,
        user.role@ == "customer"@ && user.device_scope@ != "*"@ && scope is Array ==> (device_access(
            user,
            device_id,
            scope,
        ) is Ok <==> scope->Array_0.contains(Some(device_id))),
{
    reveal_strlit("customer");
    reveal_strlit("owner");
    reveal_strlit("admin");
    reveal_strlit("support");
    reveal_strlit("viewer");
    assert(!unscoped_role("customer"@)) by {
        assert("customer"@.len() != "owner"@.len());
        assert("customer"@.len() != "admin"@.len());
        assert("customer"@.len() != "support"@.len());
        assert("customer"@.len() != "viewer"@.len());
    }
}

} // verus!
