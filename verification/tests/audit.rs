use hackline_gateway::api::audit::{audit_page, default_limit, detail_id, project, AuditDetail};
use hackline_gateway::db::audit::{stored_secs, AuditEntry};
use hackline_gateway::json::JsonShape;

fn row(id: i64, action: &str) -> AuditEntry {
    AuditEntry {
        id,
        ts: 0,
        user_id: None,
        device_id: None,
        tunnel_id: None,
        action: action.to_string(),
        detail: None,
        ts_close: None,
        request_id: None,
        peer: None,
        bytes_up: None,
        bytes_down: None,
    }
}

#[test]
fn subject_prefers_tunnel_fk_over_device_fk() {
    let mut r = row(1, "tunnel.session");
    r.tunnel_id = Some(7);
    r.device_id = Some(3);
    assert_eq!(project(r).subject, "tunnel:7");
}

#[test]
fn subject_falls_back_to_device_fk_when_tunnel_null() {
    let mut r = row(1, "cmd.send");
    r.device_id = Some(3);
    assert_eq!(project(r).subject, "device:3");
}

#[test]
fn subject_recovered_from_detail_tunnel_id_after_delete() {
    let mut r = row(1, "tunnel.delete");
    r.user_id = Some(2);
    r.detail = Some(r#"{"tunnel_id": 42}"#.to_string());
    let v = project(r);
    assert_eq!(v.subject, "tunnel:42");
    assert_eq!(v.actor_user_id, Some(2));
}

#[test]
fn subject_recovered_from_detail_device_id_after_delete() {
    let mut r = row(1, "device.delete");
    r.user_id = Some(2);
    r.detail = Some(r#"{"device_id": 99}"#.to_string());
    assert_eq!(project(r).subject, "device:99");
}

#[test]
fn subject_user_only_when_no_other_signal() {
    let mut r = row(1, "auth.login");
    r.user_id = Some(5);
    assert_eq!(project(r).subject, "user:5");
}

#[test]
fn subject_empty_when_no_fks_and_no_recoverable_detail() {
    let r = row(1, "auth.login");
    assert_eq!(project(r).subject, "");
}

#[test]
fn non_json_detail_is_wrapped_and_subject_falls_through() {
    let mut r = row(1, "auth.login");
    r.user_id = Some(5);
    r.detail = Some("legacy free text".to_string());
    let v = project(r);
    assert_eq!(v.subject, "user:5");
    assert!(matches!(v.detail, AuditDetail::Raw(ref s) if s == "legacy free text"));
}

#[test]
fn json_detail_kept_and_negative_ids_rendered() {
    let mut r = row(4, "cmd.send");
    r.ts = 1700;
    r.detail = Some(r#"{"device_id": -3, "tunnel_id": "x"}"#.to_string());
    let v = project(r);
    assert_eq!(v.id, 4);
    assert_eq!(v.at, 1700);
    assert_eq!(v.action, "cmd.send");
    assert_eq!(v.subject, "device:-3");
    assert!(matches!(v.detail, AuditDetail::Json(_)));
}

#[test]
fn detail_id_reads_integer_members_only() {
    let shape = JsonShape::Object(vec![("tunnel_id".to_string(), Some(12)), ("device_id".to_string(), None)]);
    assert_eq!(detail_id(&shape, "tunnel_id"), Some(12));
    assert_eq!(detail_id(&shape, "device_id"), None);
    assert_eq!(detail_id(&shape, "other"), None);
    assert_eq!(detail_id(&JsonShape::Array(vec![Some(1)]), "tunnel_id"), None);
}

#[test]
fn audit_page_keeps_order_and_has_no_cursor() {
    let mut a = row(2, "a");
    a.user_id = Some(1);
    let b = row(1, "b");
    let page = audit_page(vec![a, b]);
    assert_eq!(page.next_cursor, None);
    assert_eq!(page.items.len(), 2);
    assert_eq!(page.items[0].id, 2);
    assert_eq!(page.items[0].subject, "user:1");
    assert_eq!(page.items[1].id, 1);
    assert_eq!(default_limit(), 50);
}

#[test]
fn session_times_are_stored_in_seconds() {
    assert_eq!(stored_secs(1_700_000_000_000), 1_700_000_000);
    assert_eq!(stored_secs(1_700_000_005_999), 1_700_000_005);
    assert_eq!(stored_secs(-1500), -1);
    assert_eq!(stored_secs(i64::MIN), i64::MIN / 1000);
}

#[test]
fn tunnel_session_ts_is_stored_in_seconds() {
    let now_ms = 1_700_000_000_000_i64;
    assert_eq!(stored_secs(now_ms), now_ms / 1000);
    assert_eq!(stored_secs(now_ms + 5_000), (now_ms + 5_000) / 1000);
}
