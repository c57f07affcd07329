//! End-to-end tests of the metrics service: routing, the exported payload,
//! and the three instruments, all through the public API with the real
//! prometheus registry underneath.

use metrics_server::{HttpMethod, Response, ServiceMetrics};

/// Extract the value of one sample line (`<series> <value>`) from a text
/// exposition payload.
fn sample(text: &str, series: &str) -> f64 {
    for line in text.lines() {
        if let Some(rest) = line.strip_prefix(series) {
            if let Some(v) = rest.strip_prefix(' ') {
                return v.trim().parse().unwrap();
            }
        }
    }
    panic!("series {series} not found in:\n{text}");
}

const COUNTER: &str = "example_http_requests_total{handler=\"all\"}";
const SIZE_SUM: &str = "example_http_response_size_bytes_sum{handler=\"all\"}";
const SIZE_COUNT: &str = "example_http_response_size_bytes_count{handler=\"all\"}";
const LAT_SUM: &str = "example_http_request_duration_seconds_sum{handler=\"all\"}";
const LAT_COUNT: &str = "example_http_request_duration_seconds_count{handler=\"all\"}";

fn scrape(state: &mut ServiceMetrics) -> Response {
    state.serve_req(HttpMethod::Get, "/metrics")
}

fn body_text(r: &Response) -> String {
    String::from_utf8(r.body.clone()).unwrap()
}

#[test]
fn test_scrape_returns_200_with_nonempty_body() {
    let mut state = ServiceMetrics::new();
    let r = scrape(&mut state);
    assert_eq!(r.status, 200);
    assert!(!r.body.is_empty());
    assert_eq!(r.content_type.as_deref(), Some("text/plain; version=0.0.4"));
}

#[test]
fn test_unmatched_routes_get_404_not_implemented() {
    let mut state = ServiceMetrics::new();
    let cases = [
        (HttpMethod::Delete, "/anything"),
        (HttpMethod::Post, "/metrics"),
        (HttpMethod::Get, "/metrics/"),
        (HttpMethod::Get, "/Metrics"),
        (HttpMethod::Get, "/metrics?verbose=1"),
        (HttpMethod::Get, "/metric"),
        (HttpMethod::Other, "/metrics"),
        (HttpMethod::Head, "/"),
    ];
    for (method, path) in cases {
        let r = state.serve_req(method, path);
        assert_eq!(r.status, 404);
        assert_eq!(r.body, b"Not implemented".to_vec());
        assert!(r.content_type.is_none());
    }
}

#[test]
fn test_counter_counts_every_request_plus_the_scrape() {
    let mut state = ServiceMetrics::new();
    state.serve_req(HttpMethod::Post, "/api/write");
    state.serve_req(HttpMethod::Get, "/other");
    state.serve_req(HttpMethod::Delete, "/x");
    let r = scrape(&mut state);
    // three requests before the scrape, plus the scrape's own increment
    assert_eq!(sample(&body_text(&r), COUNTER), 4.0);
}

#[test]
fn test_five_scrapes_show_counter_at_five() {
    let mut state = ServiceMetrics::new();
    let mut last = scrape(&mut state);
    for _ in 0..4 {
        last = scrape(&mut state);
    }
    assert_eq!(last.status, 200);
    assert_eq!(sample(&body_text(&last), COUNTER), 5.0);
}

#[test]
fn test_delete_then_scrape_shows_one_more() {
    let mut state = ServiceMetrics::new();
    let r = state.serve_req(HttpMethod::Delete, "/anything");
    assert_eq!(r.status, 404);
    assert_eq!(r.body, b"Not implemented".to_vec());
    let s = scrape(&mut state);
    // the delete's increment, plus the scrape's own
    assert_eq!(sample(&body_text(&s), COUNTER), 2.0);
}

#[test]
fn test_size_sample_is_exact_payload_length() {
    let mut state = ServiceMetrics::new();
    let first = scrape(&mut state);
    let second = scrape(&mut state);
    let text = body_text(&second);
    // the most recent (and only) size sample is the first payload's length
    assert_eq!(sample(&text, SIZE_COUNT), 1.0);
    assert_eq!(sample(&text, SIZE_SUM), first.body.len() as f64);
}

#[test]
fn test_latency_recorded_for_every_route_and_nonnegative() {
    let mut state = ServiceMetrics::new();
    state.serve_req(HttpMethod::Get, "/nope");
    state.serve_req(HttpMethod::Put, "/metrics");
    let r = scrape(&mut state);
    let text = body_text(&r);
    // the scrape's own latency lands after its export, so two samples show
    assert_eq!(sample(&text, LAT_COUNT), 2.0);
    assert!(sample(&text, LAT_SUM) >= 0.0);
}

#[test]
fn test_failed_measurement_records_zero() {
    let mut state = ServiceMetrics::new();
    state.record_latency(None);
    let (_, payload) = state.export();
    let text = String::from_utf8(payload).unwrap();
    assert_eq!(sample(&text, LAT_COUNT), 1.0);
    assert_eq!(sample(&text, LAT_SUM), 0.0);
}

#[test]
fn test_recording_operations_feed_the_export() {
    let mut state = ServiceMetrics::new();
    assert_eq!(state.request_count(), 0);
    state.record_request();
    state.record_request();
    assert_eq!(state.request_count(), 2);
    state.record_response_size(123);
    let (content_type, payload) = state.export();
    assert_eq!(content_type, "text/plain; version=0.0.4");
    let text = String::from_utf8(payload).unwrap();
    assert_eq!(sample(&text, COUNTER), 2.0);
    assert_eq!(sample(&text, SIZE_SUM), 123.0);
    assert_eq!(sample(&text, SIZE_COUNT), 1.0);
}
