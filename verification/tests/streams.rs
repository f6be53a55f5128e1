use hackline_gateway::api::events::{default_limit as events_default_limit, event_matches, events_page, StreamQuery};
use hackline_gateway::api::logs::{default_limit as logs_default_limit, log_matches, StreamQuery as LogStreamQuery};
use hackline_gateway::api::paging::next_cursor;
use hackline_gateway::db::events::{events_list_query, EventRow, EVENTS_MAX_PER_DEVICE};
use hackline_gateway::db::query::{clamped_limit, SqlArg};

#[test]
fn event_stream_filters() {
    let q = StreamQuery { device: Some(3), topic: Some("graph.*".into()) };
    assert!(event_matches(1, &q, 1, 3, "graph.x"));
    assert!(!event_matches(1, &q, 2, 3, "graph.x"));
    assert!(!event_matches(1, &q, 1, 4, "graph.x"));
    assert!(!event_matches(1, &q, 1, 3, "audit.x"));
    let all = StreamQuery { device: None, topic: None };
    assert!(event_matches(1, &all, 1, 99, "anything"));
    assert_eq!(events_default_limit(), 100);
}

#[test]
fn log_stream_filters() {
    let q = LogStreamQuery { device: None, topic: None, level: Some("warn".into()) };
    assert!(log_matches(5, &q, 5, 1, "x", "warn"));
    assert!(!log_matches(5, &q, 5, 1, "x", "info"));
    assert!(!log_matches(5, &q, 6, 1, "x", "warn"));
    assert_eq!(logs_default_limit(), 100);
}

#[test]
fn events_query_binds_filters_in_order() {
    let q = events_list_query(1, Some(2), Some("a.*"), Some(100), Some(50), 0);
    assert!(q.sql.ends_with(
        "WHERE d.org_id = ? AND e.device_id = ? AND e.topic GLOB ? AND e.ts >= ? AND e.id < ? ORDER BY e.id DESC LIMIT ?"
    ));
    let rendered: Vec<String> = q
        .args
        .iter()
        .map(|a| match a {
            SqlArg::Int(v) => v.to_string(),
            SqlArg::Text(s) => s.clone(),
        })
        .collect();
    assert_eq!(rendered, vec!["1", "2", "a.*", "100", "50", "1"]);
    let q = events_list_query(1, None, None, None, None, 10);
    assert!(q.sql.ends_with("WHERE d.org_id = ? ORDER BY e.id DESC LIMIT ?"));
    assert_eq!(q.args.len(), 2);
    assert_eq!(EVENTS_MAX_PER_DEVICE, 10_000);
}

#[test]
fn paging_rules() {
    assert_eq!(next_cursor(3, Some(7), 3), Some(7));
    assert_eq!(next_cursor(2, Some(7), 3), None);
    assert_eq!(next_cursor(0, None, 0), None);
    assert_eq!(next_cursor(1, Some(4), -5), Some(4));
    assert_eq!(clamped_limit(-3), 1);
    assert_eq!(clamped_limit(5000), 1000);
    assert_eq!(clamped_limit(40), 40);
    let rows = vec![
        EventRow { id: 5, device_id: 1, topic: "t".into(), ts: 0, content_type: "c".into(), payload: vec![] },
        EventRow { id: 4, device_id: 1, topic: "t".into(), ts: 0, content_type: "c".into(), payload: vec![] },
    ];
    assert_eq!(events_page(rows, 2).next_cursor, Some(4));
}
