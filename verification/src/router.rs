//! The request router: one incoming request becomes one response, and the
//! instruments are updated as a side effect of every request regardless of
//! route.
//!
//! The whole behaviour is pinned by two spec functions: [`step_state`] says
//! what a request does to the registry, [`step_response`] says what it
//! answers. `GET /metrics` (and nothing else: the path match is exact, with
//! no normalization) is served the exported snapshot; every other request is
//! answered `404 Not implemented`.

use vstd::prelude::*;
use vstd::string::*;

use crate::clock::{duration_nanos, elapsed_since, system_now};
use crate::http::{bytes_eq, is_get, HttpMethod, Response, ResponseModel};
use crate::instruments::{
    exposition_content_type, exposition_of, lat_sample, with_latency, with_request, with_size,
    MetricsModel, ServiceMetrics,
};

verus! {

/// The path of the one served route.
pub open spec fn metrics_path() -> Seq<u8> {
    "/metrics".spec_bytes()
}

/// True when the request is exactly `GET /metrics`.
pub open spec fn is_scrape(method: HttpMethod, path: Seq<u8>) -> bool {
    method == HttpMethod::Get && path == metrics_path()
}

/// The body of every response outside the served route.
pub open spec fn not_implemented_body() -> Seq<u8> {
    "Not implemented".spec_bytes()
}

/// The payload a scrape started in state `m` returns: the exposition of the
/// snapshot taken right after the scrape's own increment.
pub open spec fn scrape_body(m: MetricsModel) -> Seq<u8> {
    exposition_of(m.requests + 1, m.sizes, m.lats)
}

/// What one request does to the registry before its latency sample: every
/// request counts itself, and a scrape additionally records the byte length
/// of the payload it exports (the export follows the count, so the payload
/// already includes the scrape itself).
pub open spec fn routed_state(m: MetricsModel, method: HttpMethod, path: Seq<u8>) -> MetricsModel {
    if is_scrape(method, path) {
        with_size(with_request(m), scrape_body(m).len() as u64)
    } else {
        with_request(m)
    }
}

/// What one whole request does to the registry: the routing effects, then one
/// latency sample of `lat` nanoseconds.
pub open spec fn step_state(
    m: MetricsModel,
    method: HttpMethod,
    path: Seq<u8>,
    lat: u64,
) -> MetricsModel {
    with_latency(routed_state(m, method, path), lat)
}

/// The response one request receives: the exported snapshot for a scrape, a
/// deterministic `404` with body `Not implemented` for everything else.
pub open spec fn step_response(m: MetricsModel, method: HttpMethod, path: Seq<u8>) -> ResponseModel {
    if is_scrape(method, path) {
        ResponseModel {
            status: 200,
            content_type: Some(exposition_content_type()),
            body: scrape_body(m),
        }
    } else {
        ResponseModel { status: 404, content_type: None, body: not_implemented_body() }
    }
}

impl ServiceMetrics {
    /// Dispatch one request: count it, serve the snapshot on `GET /metrics`
    /// (recording the payload size), answer `404` otherwise. The latency
    /// sample is left to the caller, which measures around this call.
    pub fn handle_request(&mut self, method: HttpMethod, path: &str) -> (r: Response)
        requires
            old(self).wf(),
            old(self)@.requests < u64::MAX,
        ensures
            final(self).wf(),
            final(self)@ === routed_state(old(self)@, method, path.spec_bytes()),
            r@ === step_response(old(self)@, method, path.spec_bytes()),
            r.status == 200 ==> r.body@.len() > 0,
    {
        self.record_request();
        let get = is_get(&method);
        let on_metrics = bytes_eq(path.as_bytes(), "/metrics".as_bytes());
        if get && on_metrics {
            let (content_type, payload) = self.export();
            let size: u64 = payload.len() as u64;
            self.record_response_size(size);
            Response { status: 200, content_type: Some(content_type), body: payload }
        } else {
            Response { status: 404, content_type: None, body: "Not implemented".as_bytes_vec() }
        }
    }

    /// Serve one request start to finish, in the order the service always
    /// uses: take a timestamp, dispatch, then record the elapsed time as the
    /// request's latency sample — for every route, and as a zero sample when
    /// the clock reading failed. The sample value depends on the clock, so
    /// the contract only states that the final state is one latency sample
    /// away from the routed state.
    pub fn serve_req(&mut self, method: HttpMethod, path: &str) -> (r: Response)
        requires
            old(self).wf(),
            old(self)@.requests < u64::MAX,
        ensures
            final(self).wf(),
            r@ === step_response(old(self)@, method, path.spec_bytes()),
            exists|lat: u64|
                final(self)@ === step_state(old(self)@, method, path.spec_bytes(), lat),
            final(self)@.requests == old(self)@.requests + 1,
            is_scrape(method, path.spec_bytes()) ==> r.status == 200 && r.body@.len() > 0,
            !is_scrape(method, path.spec_bytes()) ==> r.status == 404 && r.body@
                === not_implemented_body(),
    {
        let start = system_now();
        let r = self.handle_request(method, path);
        let elapsed: Option<u64> = match elapsed_since(&start) {
            Some(d) => {
                let n = duration_nanos(&d);
                // a duration past what u64 nanoseconds can hold saturates
                if n > u64::MAX as u128 {
                    Some(u64::MAX)
                } else {
                    Some(n as u64)
                }
            },
            None => None,
        };
        self.record_latency(elapsed);
        proof {
            assert(self@ === step_state(
                old(self)@,
                method,
                path.spec_bytes(),
                lat_sample(elapsed),
            ));
        }
        r
    }
}

} // verus!
