use hackline_gateway::api::api_call::{
    call_failure, call_plan, outcome_status, outcome_text, record_call, reply_wait_ms, timeout_ms, CallFailure, CallOutcome,
};
use hackline_gateway::metrics::Metrics;
use hackline_gateway::api::tunnels::listener_for;
use hackline_gateway::api::users::{
    check_create_user, check_delete_user, check_mint_target, check_mint_token, default_role, delete_outcome,
};
use hackline_gateway::db::tunnels::Tunnel;
use hackline_gateway::db::users::User;
use hackline_gateway::error::GatewayError;
use hackline_gateway::liveliness::{liveness_change, sample_subject, LivenessChange};

fn user(id: i64, org_id: i64, role: &str) -> User {
    User {
        id,
        org_id,
        name: "n".into(),
        role: role.into(),
        device_scope: "*".into(),
        tunnel_scope: "*".into(),
        expires_at: None,
        created_at: 0,
        last_used_at: None,
    }
}

#[test]
fn user_management_rules() {
    assert_eq!(default_role(), "operator");
    assert!(check_create_user(&user(1, 1, "owner")).is_ok());
    assert_eq!(check_create_user(&user(1, 1, "admin")).unwrap_err().message(), "unauthorized: only owner can create users");
    assert!(check_delete_user(&user(1, 1, "owner"), 2).is_ok());
    assert_eq!(check_delete_user(&user(1, 1, "owner"), 1).unwrap_err().message(), "bad request: cannot delete yourself");
    assert_eq!(check_delete_user(&user(1, 1, "admin"), 2).unwrap_err().message(), "unauthorized: only owner can delete users");
    assert!(check_mint_token(&user(5, 1, "viewer"), 5).is_ok());
    assert!(check_mint_token(&user(1, 1, "owner"), 5).is_ok());
    assert_eq!(check_mint_token(&user(5, 1, "viewer"), 6).unwrap_err().message(), "unauthorized: not permitted");
    assert!(check_mint_target(&user(6, 1, "viewer"), 1).is_ok());
    assert!(matches!(check_mint_target(&user(6, 2, "viewer"), 1), Err(GatewayError::NotFound)));
    assert!(delete_outcome(true).is_ok());
    assert!(matches!(delete_outcome(false), Err(GatewayError::NotFound)));
}

#[test]
fn api_call_timeouts() {
    assert_eq!(timeout_ms(None), 5000);
    assert_eq!(timeout_ms(Some(100)), 100);
    assert_eq!(timeout_ms(Some(600_000)), 60_000);
    assert_eq!(reply_wait_ms(5000), 5500);
    assert_eq!(outcome_text(CallOutcome::Unreachable), "device_unreachable");
    assert_eq!(outcome_status(CallOutcome::TimedOut), 504);
    assert_eq!(outcome_text(CallOutcome::Replied), "ok");
}

fn tunnel(kind: &str, public_port: Option<i64>) -> Tunnel {
    Tunnel {
        id: 4,
        device_id: 2,
        kind: kind.into(),
        local_port: 65536 + 22,
        public_hostname: None,
        public_port,
        enabled: true,
        created_at: 0,
    }
}

#[test]
fn tcp_tunnels_reach_the_listener_manager() {
    let t = listener_for(&tunnel("tcp", Some(19000)), "zid".into(), "acme".into()).unwrap();
    assert_eq!(t.local_port, 22);
    assert_eq!(t.public_port, 19000);
    assert_eq!(t.org_slug, "acme");
    assert!(t.enabled);
    assert!(listener_for(&tunnel("http", Some(19000)), "zid".into(), "acme".into()).is_none());
    assert!(listener_for(&tunnel("tcp", None), "zid".into(), "acme".into()).is_none());
}

#[test]
fn liveliness_samples() {
    assert_eq!(
        sample_subject("x/y", None).unwrap_err().message(),
        "bad request: unparsable liveliness ke: x/y"
    );
    assert_eq!(sample_subject("k", Some(("acme".into(), "z".into()))).unwrap().0, "acme");
    assert!(matches!(liveness_change("acme", Some(3), "z".into(), true), Ok(LivenessChange::Seen { org_id: 3, .. })));
    assert!(matches!(liveness_change("acme", Some(3), "z".into(), false), Ok(LivenessChange::Offline { org_id: 3, .. })));
    assert_eq!(
        liveness_change("nope", None, "z".into(), true).err().unwrap().message(),
        "bad request: unknown org: nope"
    );
}

#[test]
fn error_status_and_text() {
    assert_eq!(GatewayError::NotFound.status_code(), 404);
    assert_eq!(GatewayError::NotFound.message(), "not found");
    assert_eq!(GatewayError::BadRequest("x".into()).status_code(), 400);
    assert_eq!(GatewayError::Unauthorized("y".into()).message(), "unauthorized: y");
    assert_eq!(GatewayError::Config("z".into()).status_code(), 500);
}

#[test]
fn api_call_plan_and_accounting() {
    let p = call_plan(&user(1, 1, "owner"), 3, "ping", None, None).unwrap();
    assert_eq!(p.timeout_ms, 5000);
    assert_eq!(p.wait_ms, 5500);
    assert_eq!(p.content_type, "application/json");
    let p = call_plan(&user(1, 1, "viewer"), 3, "ping", Some(90_000), Some("text/plain".into())).unwrap();
    assert_eq!(p.timeout_ms, 60_000);
    assert_eq!(p.content_type, "text/plain");
    assert_eq!(
        call_plan(&user(1, 1, "owner"), 3, "", None, None).err().unwrap().message(),
        "bad request: topic must not be empty"
    );
    let mut customer = user(1, 1, "customer");
    customer.device_scope = "[4]".into();
    assert_eq!(
        call_plan(&customer, 3, "", None, None).err().unwrap().message(),
        "unauthorized: user 1 not authorised for device 3"
    );

    let mut m = Metrics::new();
    assert_eq!(record_call(&mut m, "ping", CallOutcome::TimedOut), ("device_timeout", 504));
    assert_eq!(record_call(&mut m, "ping", CallOutcome::Replied), ("ok", 200));
    let out = m.render(&vec![]);
    assert!(out.contains("hackline_api_calls_total{topic=\"ping\",outcome=\"error\"} 1\n"));
    assert!(out.contains("hackline_api_calls_total{topic=\"ping\",outcome=\"ok\"} 1\n"));
    assert_eq!(call_failure(CallFailure::Decode, "eof").message(), "bad request: reply decode: eof");
    assert_eq!(call_failure(CallFailure::Encode, "x").message(), "bad request: request encode: x");
}
