use hackline_gateway::api::cmd::{cancel_outcome, cancel_target, cmd_page, default_limit, send_plan};
use hackline_gateway::db::cmd_outbox::{
    check_outbox_room, check_payload_size, cmd_list_query, derive_status, derive_status_at, CmdRow,
    CMD_DEFAULT_TTL_MS, CMD_MAX_PER_DEVICE,
};
use hackline_gateway::db::query::SqlArg;
use hackline_gateway::error::GatewayError;

#[test]
fn status_is_derived_from_timestamps() {
    assert_eq!(derive_status_at(Some(1), Some(2), 0, 10), "acked");
    assert_eq!(derive_status_at(Some(1), None, 0, 10), "delivered");
    assert_eq!(derive_status_at(None, None, 10, 10), "expired");
    assert_eq!(derive_status_at(None, None, 11, 10), "pending");
    assert_eq!(derive_status(None, Some(5), 0), "acked");
    assert_eq!(derive_status(None, None, i64::MAX), "pending");
}

#[test]
fn enqueue_caps() {
    assert!(check_payload_size(65536).is_ok());
    assert_eq!(
        check_payload_size(65537).unwrap_err().message(),
        "bad request: cmd payload 65537 bytes exceeds 64 KiB cap"
    );
    assert!(check_outbox_room(4, CMD_MAX_PER_DEVICE - 1, Some(2_000), 1_000).is_ok());
    assert_eq!(
        check_outbox_room(4, CMD_MAX_PER_DEVICE, Some(2_000), 1_000).unwrap_err().message(),
        "bad request: device 4 cmd_outbox full (1000 pending)"
    );
}

#[test]
fn enqueue_admits_once_oldest_row_expired() {
    assert!(check_outbox_room(7, CMD_MAX_PER_DEVICE, Some(1_000), 1_000).is_ok());
    assert!(check_outbox_room(7, CMD_MAX_PER_DEVICE + 5, Some(999), 1_000).is_ok());
    assert!(check_outbox_room(7, CMD_MAX_PER_DEVICE, None, 1_000).is_ok());
    assert_eq!(
        check_outbox_room(7, CMD_MAX_PER_DEVICE, Some(1_001), 1_000).unwrap_err().message(),
        "bad request: device 7 cmd_outbox full (1000 pending)"
    );
}

fn ints(args: &[SqlArg]) -> Vec<i64> {
    args.iter()
        .map(|a| match a {
            SqlArg::Int(v) => *v,
            SqlArg::Text(_) => panic!("text argument"),
        })
        .collect()
}

#[test]
fn list_query_filters_and_clamps() {
    let q = cmd_list_query(7, Some("delivered"), Some(50), 5000).unwrap();
    assert!(q.sql.contains(" AND delivered_at IS NOT NULL AND ack_at IS NULL AND id < ? ORDER BY id DESC LIMIT ?"));
    assert_eq!(ints(&q.args), vec![7, 50, 1000]);
    let q = cmd_list_query(7, None, None, 0).unwrap();
    assert!(q.sql.ends_with("WHERE device_id = ? ORDER BY id DESC LIMIT ?"));
    assert_eq!(ints(&q.args), vec![7, 1]);
    match cmd_list_query(7, Some("bogus"), None, 10) {
        Err(GatewayError::BadRequest(m)) => assert_eq!(m, "unknown status `bogus`"),
        _ => panic!("expected a refusal"),
    }
}

#[test]
fn send_plan_defaults() {
    let p = send_plan("reboot", 1_000, None, None).unwrap();
    assert_eq!(p.expires_at, 1_000 + CMD_DEFAULT_TTL_MS);
    assert_eq!(p.content_type, "application/json");
    let p = send_plan("reboot", 1_000, Some(-5), Some("text/plain".into())).unwrap();
    assert_eq!(p.expires_at, 1_001);
    assert_eq!(p.content_type, "text/plain");
    let p = send_plan("reboot", i64::MAX - 1, Some(10), None).unwrap();
    assert_eq!(p.expires_at, i64::MAX);
    assert_eq!(send_plan("", 0, None, None).err().unwrap().message(), "bad request: topic must not be empty");
    assert_eq!(default_limit(), 100);
}

fn row(id: i64) -> CmdRow {
    CmdRow {
        id,
        cmd_id: format!("c{id}"),
        device_id: 1,
        topic: "t".into(),
        content_type: "application/json".into(),
        payload: b"{}".to_vec(),
        enqueued_at: 0,
        expires_at: 10,
        delivered_at: None,
        ack_at: None,
        ack_result: None,
        ack_detail: None,
        attempts: 0,
        last_error: None,
        status: "pending".into(),
    }
}

#[test]
fn full_pages_hand_out_a_cursor() {
    let page = cmd_page(vec![row(9), row(8)], 2);
    assert_eq!(page.next_cursor, Some(8));
    let page = cmd_page(vec![row(9)], 2);
    assert_eq!(page.next_cursor, None);
    assert_eq!(page.items.len(), 1);
}

#[test]
fn cancel_decisions() {
    assert!(cancel_target(Some(row(1))).is_ok());
    assert_eq!(cancel_target(None).err().unwrap().status_code(), 404);
    assert!(cancel_outcome(true).is_ok());
    assert_eq!(cancel_outcome(false).unwrap_err().status_code(), 404);
}
