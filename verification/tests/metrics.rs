use hackline_gateway::metrics::{Metrics, Outcome};

#[test]
fn render_lists_counters_by_label() {
    let mut m = Metrics::new();
    m.set_devices_online(3);
    m.inc_cmd("accepted");
    m.inc_cmd("accepted");
    m.inc_cmd("delivered");
    m.inc_tunnel_session("tcp", Outcome::Success);
    m.inc_api_call("ping", Outcome::Error);
    m.add_tunnel_bytes(10, 20);
    let out = m.render(&vec![("4".to_string(), 2)]);
    assert!(out.contains("hackline_devices_online 3\n"));
    assert!(out.contains("hackline_cmd_total{outcome=\"accepted\"} 2\n"));
    assert!(out.contains("hackline_cmd_total{outcome=\"delivered\"} 1\n"));
    assert!(out.contains("hackline_tunnel_sessions_total{kind=\"tcp\",outcome=\"ok\"} 1\n"));
    assert!(out.contains("hackline_api_calls_total{topic=\"ping\",outcome=\"error\"} 1\n"));
    assert!(out.contains("hackline_tunnel_bytes_total{direction=\"up\"} 10\n"));
    assert!(out.contains("hackline_tunnel_bytes_total{direction=\"down\"} 20\n"));
    assert!(out.contains("hackline_cmd_outbox_depth{device=\"4\"} 2\n"));
    let accepted = out.find("outcome=\"accepted\"").unwrap();
    let delivered = out.find("outcome=\"delivered\"").unwrap();
    assert!(accepted < delivered);
}

#[test]
fn active_gauge_goes_back_down_and_stops_at_zero() {
    let mut m = Metrics::new();
    m.inc_tunnel_active("tcp");
    m.dec_tunnel_active("tcp");
    m.dec_tunnel_active("tcp");
    let out = m.render(&vec![]);
    assert!(out.contains("hackline_tunnel_active{kind=\"tcp\"} 0\n"));
}

#[test]
fn events_outside_the_allowlist_fold_into_other() {
    let mut m = Metrics::new();
    m.set_event_topic_allowlist(Some(vec!["graph".to_string()]));
    m.inc_event("graph");
    m.inc_event("noise");
    m.inc_event("more-noise");
    m.inc_log("warn");
    m.set_audit_rows(12);
    let out = m.render(&vec![]);
    assert!(out.contains("hackline_events_received_total{topic=\"graph\"} 1\n"));
    assert!(out.contains("hackline_events_received_total{topic=\"_other\"} 2\n"));
    assert!(out.contains("hackline_logs_received_total{level=\"warn\"} 1\n"));
    assert!(out.contains("hackline_audit_rows 12\n"));
    assert_eq!(Outcome::Success.as_str(), "ok");
    assert_eq!(Outcome::Error.as_str(), "error");
}

fn adjacent(out: &str, first: &str, second: &str) -> bool {
    let ls: Vec<&str> = out.lines().collect();
    ls.windows(2).any(|w| w[0] == first && w[1] == second)
}

#[test]
fn a_fresh_registry_renders_no_labelled_samples() {
    let m = Metrics::new();
    let out = m.render(&vec![]);
    assert_eq!(out.lines().count(), 22);
    assert!(out.lines().any(|l| l == "hackline_devices_online 0"));
    assert!(out.lines().any(|l| l == "hackline_audit_rows 0"));
    assert!(!out.contains('{'));
}

#[test]
fn samples_of_a_family_follow_each_other_in_label_order() {
    let mut m = Metrics::new();
    m.inc_cmd("rejected");
    m.inc_cmd("accepted");
    m.inc_cmd("rejected");
    m.inc_tunnel_session("tcp", Outcome::Success);
    m.inc_tunnel_session("tcp", Outcome::Success);
    m.inc_tunnel_session("tcp", Outcome::Error);
    m.add_tunnel_bytes(10, 20);
    m.add_tunnel_bytes(5, 0);
    let out = m.render(&vec![("10".to_string(), 1), ("3".to_string(), 2)]);
    assert!(adjacent(&out, "hackline_cmd_total{outcome=\"accepted\"} 1", "hackline_cmd_total{outcome=\"rejected\"} 2"));
    assert!(adjacent(
        &out,
        "hackline_tunnel_sessions_total{kind=\"tcp\",outcome=\"error\"} 1",
        "hackline_tunnel_sessions_total{kind=\"tcp\",outcome=\"ok\"} 2"
    ));
    assert!(adjacent(
        &out,
        "hackline_tunnel_bytes_total{direction=\"down\"} 20",
        "hackline_tunnel_bytes_total{direction=\"up\"} 15"
    ));
    assert!(adjacent(&out, "hackline_cmd_outbox_depth{device=\"10\"} 1", "hackline_cmd_outbox_depth{device=\"3\"} 2"));
    assert_eq!(out.lines().filter(|l| l.starts_with("hackline_cmd_outbox_depth{")).count(), 2);
}

#[test]
fn clearing_the_allowlist_stops_folding() {
    let mut m = Metrics::new();
    m.set_event_topic_allowlist(Some(vec!["a".to_string()]));
    m.set_event_topic_allowlist(None);
    m.inc_event("b");
    let out = m.render(&vec![]);
    assert!(out.lines().any(|l| l == "hackline_events_received_total{topic=\"b\"} 1"));
    assert!(!out.contains("_other"));
}

#[test]
fn folded_topics_leave_no_sample_of_their_own() {
    let mut m = Metrics::new();
    m.set_event_topic_allowlist(Some(vec!["graph.x".to_string()]));
    m.inc_event("graph.x");
    m.inc_event("audit.y");
    m.inc_event("z");
    let out = m.render(&vec![]);
    assert!(out.lines().any(|l| l == "hackline_events_received_total{topic=\"_other\"} 2"));
    assert!(out.lines().any(|l| l == "hackline_events_received_total{topic=\"graph.x\"} 1"));
    assert!(!out.contains("audit.y"));
    assert!(!out.contains("topic=\"z\""));
}

#[test]
fn inc_then_dec_active_leaves_the_exposition_unchanged() {
    let mut m = Metrics::new();
    m.inc_tunnel_active("tcp");
    m.inc_cmd("accepted");
    let before = m.render(&vec![]);
    m.inc_tunnel_active("tcp");
    m.dec_tunnel_active("tcp");
    assert_eq!(m.render(&vec![]), before);
    let mut z = Metrics::new();
    z.dec_tunnel_active("tcp");
    assert!(z.render(&vec![]).lines().any(|l| l == "hackline_tunnel_active{kind=\"tcp\"} 0"));
}

#[test]
fn outbox_depths_render_in_device_order_once_each() {
    let m = Metrics::new();
    let out = m.render(&vec![("3".to_string(), 2), ("10".to_string(), 1), ("4".to_string(), 1), ("4".to_string(), 5)]);
    let ls: Vec<&str> = out.lines().filter(|l| l.starts_with("hackline_cmd_outbox_depth{")).collect();
    assert_eq!(
        ls,
        vec![
            "hackline_cmd_outbox_depth{device=\"10\"} 1",
            "hackline_cmd_outbox_depth{device=\"3\"} 2",
            "hackline_cmd_outbox_depth{device=\"4\"} 5",
        ]
    );
}
