use hackline_gateway::api::claim::{default_owner_name, find_owner};
use hackline_gateway::auth::token::{generate, sha256_hex};
use hackline_gateway::db::claim::{consume_plan, ensure_pending_token, is_claimed, is_pending};
use hackline_gateway::db::users::User;

#[test]
fn claim_token_only_on_first_boot() {
    let t = ensure_pending_token(0, 0).unwrap();
    assert_eq!(t.hash, sha256_hex(&t.raw));
    assert!(ensure_pending_token(1, 0).is_none());
    assert!(ensure_pending_token(0, 1).is_none());
    assert!(is_claimed(1) && !is_claimed(0));
    assert!(is_pending(1) && !is_pending(0));
}

#[test]
fn consume_checks_the_claim_token() {
    let issued = generate();
    let plan = consume_plan(&issued.raw, Some(issued.hash.clone()), None).unwrap();
    assert_eq!(plan.bearer.hash, sha256_hex(&plan.bearer.raw));
    assert_ne!(plan.bearer.raw, issued.raw);
    assert_eq!(plan.org_slug, None);

    let e = consume_plan("wrong", Some(issued.hash.clone()), None).err().unwrap();
    assert_eq!(e.message(), "unauthorized: invalid claim token");
    let e = consume_plan(&issued.raw, None, None).err().unwrap();
    assert_eq!(e.message(), "bad request: no pending claim");
}

#[test]
fn consume_picks_the_org() {
    let issued = generate();
    let named = consume_plan(&issued.raw, Some(issued.hash.clone()), Some("acme")).unwrap();
    assert_eq!(named.org_slug.as_deref(), Some("acme"));
    let default = consume_plan(&issued.raw, Some(issued.hash.clone()), Some("default")).unwrap();
    assert_eq!(default.org_slug, None);
}

fn user(id: i64, role: &str) -> User {
    User {
        id,
        org_id: 1,
        name: "u".into(),
        role: role.into(),
        device_scope: "*".into(),
        tunnel_scope: "*".into(),
        expires_at: None,
        created_at: 0,
        last_used_at: None,
    }
}

#[test]
fn first_owner_is_found() {
    assert_eq!(default_owner_name(), "owner");
    let users = vec![user(1, "viewer"), user(2, "owner"), user(3, "owner")];
    assert_eq!(find_owner(&users).unwrap(), 1);
    let e = find_owner(&vec![user(1, "viewer")]).err().unwrap();
    assert_eq!(e.message(), "bad request: claim failed");
}
