use hackline_gateway::auth::scope::{check_device, check_device_with_scope};
use hackline_gateway::db::users::User;
use hackline_gateway::error::GatewayError;
use hackline_gateway::json::JsonShape;

fn user(role: &str, scope: &str) -> User {
    User {
        id: 1,
        org_id: 1,
        name: "u".into(),
        role: role.into(),
        device_scope: scope.into(),
        tunnel_scope: "*".into(),
        expires_at: None,
        created_at: 0,
        last_used_at: None,
    }
}

#[test]
fn owner_bypasses() {
    assert!(check_device(&user("owner", "[]"), 7).is_ok());
}

#[test]
fn customer_array_match() {
    assert!(check_device(&user("customer", "[1,2,3]"), 2).is_ok());
    assert!(check_device(&user("customer", "[1,2,3]"), 9).is_err());
    assert!(check_device(&user("customer", "*"), 9).is_ok());
}

#[test]
fn scope_errors_carry_their_reason() {
    match check_device(&user("customer", "[1,2,3]"), 9) {
        Err(GatewayError::Unauthorized(m)) => assert_eq!(m, "user 1 not authorised for device 9"),
        other => panic!("unexpected {:?}", other),
    }
    match check_device(&user("customer", "{\"a\":1}"), 9) {
        Err(GatewayError::Config(m)) => assert_eq!(m, "device_scope must be `*` or a JSON array"),
        other => panic!("unexpected {:?}", other),
    }
    match check_device(&user("customer", "not json"), 9) {
        Err(GatewayError::Config(m)) => assert!(m.starts_with("device_scope JSON: ")),
        other => panic!("unexpected {:?}", other),
    }
    match check_device(&user("intern", "*"), 9) {
        Err(GatewayError::Unauthorized(m)) => assert_eq!(m, "unknown role `intern`"),
        other => panic!("unexpected {:?}", other),
    }
    for role in ["admin", "support", "viewer"] {
        assert!(check_device(&user(role, "[]"), 9).is_ok());
    }
}

#[test]
fn scope_decision_on_parsed_scope() {
    let u = user("customer", "[5]");
    assert!(check_device_with_scope(&u, 5, &JsonShape::Array(vec![Some(5)])).is_ok());
    assert!(check_device_with_scope(&u, 6, &JsonShape::Array(vec![Some(5), None])).is_err());
    match check_device_with_scope(&u, 6, &JsonShape::Invalid("EOF while parsing".into())) {
        Err(GatewayError::Config(m)) => assert_eq!(m, "device_scope JSON: EOF while parsing"),
        other => panic!("unexpected {:?}", other),
    }
    assert!(check_device_with_scope(&u, 6, &JsonShape::Other).is_err());
}
