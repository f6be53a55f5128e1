use hackline_gateway::api::orgs::{check_create_org, check_list_orgs, org_name, CreateOrg};
use hackline_gateway::db::orgs::{default_org_slug, slug_conflict, validate_slug, DEFAULT_ORG_ID};
use hackline_gateway::db::users::User;
use hackline_gateway::error::GatewayError;

fn bad_request(r: Result<(), GatewayError>) -> String {
    match r {
        Err(GatewayError::BadRequest(m)) => m,
        other => panic!("unexpected {:?}", other),
    }
}

#[test]
fn slug_rules() {
    assert!(validate_slug("acme").is_ok());
    assert!(validate_slug("a-1").is_ok());
    assert!(validate_slug("0").is_ok());
    assert!(validate_slug(&"a".repeat(63)).is_ok());
    assert_eq!(bad_request(validate_slug("")), "org slug must be 1..=63 chars");
    assert_eq!(bad_request(validate_slug(&"a".repeat(64))), "org slug must be 1..=63 chars");
    assert_eq!(bad_request(validate_slug("-a")), "org slug must start with [a-z0-9]");
    assert_eq!(bad_request(validate_slug("Acme")), "org slug must start with [a-z0-9]");
    assert_eq!(bad_request(validate_slug("é")), "org slug must start with [a-z0-9]");
    assert_eq!(bad_request(validate_slug("a_b")), "org slug must match [a-z0-9][a-z0-9-]*");
    assert_eq!(bad_request(validate_slug("aé")), "org slug must match [a-z0-9][a-z0-9-]*");
}

#[test]
fn default_org_and_conflict_message() {
    assert_eq!(DEFAULT_ORG_ID, 1);
    assert_eq!(default_org_slug(), "default");
    assert_eq!(slug_conflict("acme").message(), "bad request: org slug `acme` invalid or taken");
}

fn user(role: &str) -> User {
    User {
        id: 3,
        org_id: 1,
        name: "u".into(),
        role: role.into(),
        device_scope: "*".into(),
        tunnel_scope: "*".into(),
        expires_at: None,
        created_at: 0,
        last_used_at: None,
    }
}

#[test]
fn only_owner_manages_orgs() {
    assert!(check_create_org(&user("owner")).is_ok());
    assert_eq!(check_create_org(&user("admin")).unwrap_err().message(), "unauthorized: only owner can create orgs");
    assert!(check_list_orgs(&user("owner")).is_ok());
    assert_eq!(check_list_orgs(&user("viewer")).unwrap_err().status_code(), 401);
}

#[test]
fn org_name_defaults_to_slug() {
    assert_eq!(org_name(&CreateOrg { slug: "acme".into(), name: None }), "acme");
    assert_eq!(org_name(&CreateOrg { slug: "acme".into(), name: Some("Acme Inc".into()) }), "Acme Inc");
}
