//! Tests of the shutdown coordinator: the accept gate, draining, and the
//! in-flight request that the signal must not cut short.

use metrics_server::shutdown::Phase;
use metrics_server::{Coordinator, HttpMethod, ServiceMetrics};

#[test]
fn test_inflight_request_survives_shutdown() {
    let mut coord = Coordinator::new();
    let mut state = ServiceMetrics::new();

    // one slow request is in flight when the signal resolves
    assert!(coord.try_accept());
    coord.signal();
    assert!(matches!(coord.phase(), Phase::Draining));

    // the in-flight request still completes with a full response
    let r = state.serve_req(HttpMethod::Get, "/metrics");
    assert_eq!(r.status, 200);
    assert!(!r.body.is_empty());

    // a connection attempted after the signal is refused
    assert!(!coord.try_accept());

    // once the in-flight work is done the coordinator stops
    coord.finish_connection();
    assert!(matches!(coord.phase(), Phase::Stopped));
    assert_eq!(coord.inflight(), 0);
}

#[test]
fn test_no_accept_after_signal() {
    let mut coord = Coordinator::new();
    assert!(coord.try_accept());
    assert!(coord.try_accept());
    coord.signal();
    assert!(!coord.try_accept());
    assert!(!coord.try_accept());
    coord.finish_connection();
    assert!(matches!(coord.phase(), Phase::Draining));
    coord.finish_connection();
    assert!(matches!(coord.phase(), Phase::Stopped));
}

#[test]
fn test_signal_with_nothing_inflight_stops_at_once() {
    let mut coord = Coordinator::new();
    coord.signal();
    assert!(matches!(coord.phase(), Phase::Stopped));
    assert!(!coord.try_accept());
    assert_eq!(coord.inflight(), 0);
}

#[test]
fn test_accepts_counted_until_finished() {
    let mut coord = Coordinator::new();
    assert!(coord.try_accept());
    assert!(coord.try_accept());
    assert!(coord.try_accept());
    assert_eq!(coord.inflight(), 3);
    coord.finish_connection();
    assert_eq!(coord.inflight(), 2);
    // still accepting: finishing work does not stop an un-signalled server
    assert!(matches!(coord.phase(), Phase::Accepting));
    assert!(coord.try_accept());
    assert_eq!(coord.inflight(), 3);
}
