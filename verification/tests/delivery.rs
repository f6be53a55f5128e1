use hackline_gateway::cmd_delivery::{check_ack, AckBody, PushAction, PushEvent, Pusher};
use hackline_gateway::db::cmd_outbox::CmdRow;
use hackline_gateway::error::GatewayError;
use hackline_gateway::metrics::Metrics;

fn row(id: i64, device_id: i64) -> CmdRow {
    CmdRow {
        id,
        cmd_id: format!("cmd-{id}"),
        device_id,
        topic: "t".into(),
        content_type: "application/json".into(),
        payload: b"{}".to_vec(),
        enqueued_at: 0,
        expires_at: 10,
        delivered_at: None,
        ack_at: None,
        ack_result: None,
        ack_detail: None,
        attempts: 0,
        last_error: None,
        status: "pending".into(),
    }
}

fn delivered(m: &Metrics) -> bool {
    m.render(&vec![]).contains("hackline_cmd_total{outcome=\"delivered\"} 1\n")
}

#[test]
fn pusher_delivers_and_skips_rows() {
    let mut metrics = Metrics::new();
    let (mut p, a) = Pusher::new();
    assert!(matches!(a, PushAction::ListPending));
    let a = p.step(PushEvent::Listed(Ok(vec![row(1, 10), row(2, 20)])), &mut metrics);
    assert!(matches!(a, PushAction::LookupDevice { device_id: 10 }));
    let a = p.step(PushEvent::DeviceLookup(false), &mut metrics);
    assert!(matches!(a, PushAction::LookupDevice { device_id: 20 }));
    let a = p.step(PushEvent::DeviceLookup(true), &mut metrics);
    assert!(matches!(a, PushAction::BuildEnvelope { row: 1 }));
    assert_eq!(p.row(1).cmd_id, "cmd-2");
    let a = p.step(PushEvent::Envelope(true), &mut metrics);
    assert!(matches!(a, PushAction::Publish { row: 1 }));
    assert!(!delivered(&metrics));
    let a = p.step(PushEvent::Published(true), &mut metrics);
    match a {
        PushAction::MarkDelivered { cmd_id } => assert_eq!(cmd_id, "cmd-2"),
        _ => panic!("expected a delivery mark"),
    }
    assert!(delivered(&metrics));
    let e = PushEvent::Marked;
    assert!(p.accepts(&e));
    let a = p.step(e, &mut metrics);
    assert!(matches!(a, PushAction::Finish(Ok(()))));
    assert!(!p.accepts(&PushEvent::Marked));
}

#[test]
fn pusher_stops_on_errors() {
    let mut metrics = Metrics::new();
    let (mut p, _) = Pusher::new();
    let a = p.step(PushEvent::Listed(Ok(vec![])), &mut metrics);
    assert!(matches!(a, PushAction::Finish(Ok(()))));

    let (mut p, _) = Pusher::new();
    let a = p.step(PushEvent::Listed(Err(GatewayError::NotFound)), &mut metrics);
    assert!(matches!(a, PushAction::Finish(Err(GatewayError::NotFound))));

    let (mut p, _) = Pusher::new();
    p.step(PushEvent::Listed(Ok(vec![row(1, 10)])), &mut metrics);
    match p.step(PushEvent::JoinFailed("cancelled".into()), &mut metrics) {
        PushAction::Finish(Err(e)) => assert_eq!(e.message(), "config: blocking task join: cancelled"),
        _ => panic!("expected a failure"),
    }
    let (mut p, _) = Pusher::new();
    p.step(PushEvent::Listed(Ok(vec![row(1, 10)])), &mut metrics);
    p.step(PushEvent::DeviceLookup(true), &mut metrics);
    p.step(PushEvent::Envelope(true), &mut metrics);
    let a = p.step(PushEvent::Published(false), &mut metrics);
    assert!(matches!(a, PushAction::Finish(Ok(()))));
    assert!(!delivered(&metrics));
}

fn body(cmd_id: &str) -> AckBody {
    AckBody { cmd_id: cmd_id.into(), result: "ok".into(), detail: None }
}

#[test]
fn acks_must_match_their_key() {
    let ok = check_ack("k", Some("abc".into()), Ok(body("abc"))).unwrap();
    assert_eq!(ok.result, "ok");
    let e = check_ack("bad/key", None, Ok(body("abc"))).err().unwrap();
    assert_eq!(e.message(), "bad request: unparsable cmd-ack keyexpr: bad/key");
    let e = check_ack("k", Some("abc".into()), Err("eof".into())).err().unwrap();
    assert_eq!(e.message(), "bad request: cmd-ack envelope: eof");
    let e = check_ack("k", Some("abc".into()), Ok(body("xyz"))).err().unwrap();
    assert_eq!(e.message(), "bad request: cmd-ack body cmd_id xyz != keyexpr abc");
}
