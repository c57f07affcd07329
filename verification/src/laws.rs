//! The laws the service obeys, each proved over the spec functions that the
//! executable functions are verified against.

use vstd::prelude::*;

use crate::http::HttpMethod;
use crate::instruments::{exposition_content_type, exposition_of, fresh_model, MetricsModel};
use crate::router::{is_scrape, metrics_path, not_implemented_body, scrape_body, step_response, step_state};
use crate::shutdown::{accept_granted, coord_step, coord_wf, CoordModel, Event, Phase};

verus! {

/// One request as the router sees it: a method, a path and the latency
/// sample its handling ends with.
pub struct ReqEvent {
    pub method: HttpMethod,
    pub path: Seq<u8>,
    pub lat: u64,
}

/// The registry state after issuing `reqs` in order, starting from `m`.
pub open spec fn run_requests(m: MetricsModel, reqs: Seq<ReqEvent>) -> MetricsModel
    decreases reqs.len(),
{
    if reqs.len() == 0 {
        m
    } else {
        step_state(
            run_requests(m, reqs.drop_last()),
            reqs.last().method,
            reqs.last().path,
            reqs.last().lat,
        )
    }
}

/// Every request — whatever its method, path or measured latency — adds
/// exactly one to the counter, so after any mix of `reqs.len()` requests the
/// counter stands at its start plus `reqs.len()`.
pub proof fn lemma_every_request_counted(m: MetricsModel, reqs: Seq<ReqEvent>)
    ensures
        run_requests(m, reqs).requests == m.requests + reqs.len(),
    decreases reqs.len(),
{
    if reqs.len() > 0 {
        lemma_every_request_counted(m, reqs.drop_last());
    }
}

/// A scrape that follows any `reqs.len()` requests from a fresh registry is
/// answered with status 200 and the exposition of a counter standing at
/// `reqs.len() + 1`: every request issued strictly before the scrape, plus
/// the scrape's own increment.
pub proof fn lemma_scrape_reports_prior_requests(reqs: Seq<ReqEvent>)
    ensures
        ({
            let at_scrape = run_requests(fresh_model(), reqs);
            let resp = step_response(at_scrape, HttpMethod::Get, metrics_path());
            resp.status == 200 && resp.body == exposition_of(
                reqs.len() + 1,
                at_scrape.sizes,
                at_scrape.lats,
            )
        }),
{
    lemma_every_request_counted(fresh_model(), reqs);
}

/// A scrape of a valid registry is always answered with status 200, the text
/// exposition content type, and the exported snapshot as its body — and the
/// executable router further guarantees that body is never empty.
pub proof fn lemma_scrape_always_succeeds(m: MetricsModel)
    ensures
        step_response(m, HttpMethod::Get, metrics_path()).status == 200,
        step_response(m, HttpMethod::Get, metrics_path()).content_type
            == Some(exposition_content_type()),
        step_response(m, HttpMethod::Get, metrics_path()).body == scrape_body(m),
{
}

/// Any request whose method and path are not exactly `GET /metrics` is
/// answered with status 404, no content type, and the body
/// `Not implemented`, whatever the registry holds.
pub proof fn lemma_other_routes_rejected(m: MetricsModel, method: HttpMethod, path: Seq<u8>)
    requires
        !is_scrape(method, path),
    ensures
        step_response(m, method, path).status == 404,
        step_response(m, method, path).content_type is None,
        step_response(m, method, path).body == not_implemented_body(),
{
}

/// After a scrape, the response-size recorder's most recent sample equals the
/// exact byte length of the payload that scrape returned.
pub proof fn lemma_size_sample_is_payload_length(
    m: MetricsModel,
    path: Seq<u8>,
    lat: u64,
)
    requires
        is_scrape(HttpMethod::Get, path),
    ensures
        ({
            let after = step_state(m, HttpMethod::Get, path, lat);
            let resp = step_response(m, HttpMethod::Get, path);
            after.sizes.len() == m.sizes.len() + 1 && after.sizes.last() == resp.body.len() as u64
        }),
{
    assert(step_state(m, HttpMethod::Get, path, lat).sizes == m.sizes.push(
        scrape_body(m).len() as u64,
    ));
}

/// The latency recorder never records a negative value: every sample any run
/// leaves in it — including the zero recorded when a measurement fails — is
/// non-negative.
pub proof fn lemma_latency_samples_nonnegative(m: MetricsModel, reqs: Seq<ReqEvent>)
    ensures
        forall|i: int|
            0 <= i < run_requests(m, reqs).lats.len() ==> run_requests(m, reqs).lats[i] >= 0,
{
}

/// The coordinator state after reacting to `evs` in order, starting from `c`.
pub open spec fn run_coord(c: CoordModel, evs: Seq<Event>) -> CoordModel
    decreases evs.len(),
{
    if evs.len() == 0 {
        c
    } else {
        coord_step(run_coord(c, evs.drop_last()), evs.last())
    }
}

/// How many accepts are granted along `evs` starting from `c`.
pub open spec fn grants_along(c: CoordModel, evs: Seq<Event>) -> nat
    decreases evs.len(),
{
    if evs.len() == 0 {
        0
    } else {
        grants_along(c, evs.drop_last()) + if evs.last() == Event::Accept && accept_granted(
            run_coord(c, evs.drop_last()),
        ) {
            1nat
        } else {
            0nat
        }
    }
}

/// How many finishes take effect along `evs` starting from `c`.
pub open spec fn finishes_along(c: CoordModel, evs: Seq<Event>) -> nat
    decreases evs.len(),
{
    if evs.len() == 0 {
        0
    } else {
        finishes_along(c, evs.drop_last()) + if evs.last() == Event::Finish && run_coord(
            c,
            evs.drop_last(),
        ).inflight > 0 {
            1nat
        } else {
            0nat
        }
    }
}

/// Once the coordinator has left `Accepting` — as it does the instant the
/// shutdown signal resolves — no later event ever brings it back, and no
/// further connection is granted.
pub proof fn lemma_no_accept_after_shutdown(c: CoordModel, evs: Seq<Event>)
    requires
        c.phase != Phase::Accepting,
    ensures
        run_coord(c, evs).phase != Phase::Accepting,
        grants_along(c, evs) == 0,
    decreases evs.len(),
{
    if evs.len() > 0 {
        lemma_no_accept_after_shutdown(c, evs.drop_last());
    }
}

/// Connections are conserved: along any run, what is in flight is exactly the
/// starting in-flight work plus the accepts granted, less the finishes — so
/// nothing accepted is ever dropped while draining.
pub proof fn lemma_inflight_is_accepts_minus_finishes(c: CoordModel, evs: Seq<Event>)
    ensures
        run_coord(c, evs).inflight + finishes_along(c, evs) == c.inflight + grants_along(c, evs),
    decreases evs.len(),
{
    if evs.len() > 0 {
        lemma_inflight_is_accepts_minus_finishes(c, evs.drop_last());
    }
}

/// Well-formedness is preserved by every run; with the conservation law this
/// says the coordinator reaches `Stopped` only once every connection it ever
/// granted — all of them accepted strictly before the signal — has finished.
pub proof fn lemma_stopped_only_after_drain(c: CoordModel, evs: Seq<Event>)
    requires
        coord_wf(c),
    ensures
        coord_wf(run_coord(c, evs)),
        run_coord(c, evs).phase == Phase::Stopped ==> finishes_along(c, evs) == c.inflight
            + grants_along(c, evs),
    decreases evs.len(),
{
    if evs.len() > 0 {
        lemma_stopped_only_after_drain(c, evs.drop_last());
    }
    lemma_inflight_is_accepts_minus_finishes(c, evs);
}

} // verus!
