//! The instrument registry and its three bound instruments: a request
//! counter, a response-size recorder and a request-latency recorder, all
//! pre-bound to the fixed label set `handler="all"`.
//!
//! The samples themselves live inside prometheus instruments, which the
//! verifier cannot look into; their contents are therefore given names
//! ([`requests_of`], [`sizes_of`], [`lats_of`]) that the trusted wrappers
//! below maintain. [`ServiceMetrics`] is the verified facade over that
//! storage: its view is the plain [`MetricsModel`], and every contract in the
//! crate speaks of that model.

use vstd::prelude::*;

use prometheus::Encoder;

verus! {

/// The mathematical state of the instrument registry: the request count, the
/// response-size samples and the latency samples (in nanoseconds), the two
/// sample streams in recording order.
pub struct MetricsModel {
    pub requests: nat,
    pub sizes: Seq<u64>,
    pub lats: Seq<u64>,
}

/// The model of a freshly constructed registry: nothing recorded yet.
pub open spec fn fresh_model() -> MetricsModel {
    MetricsModel { requests: 0, sizes: Seq::empty(), lats: Seq::empty() }
}

/// `m` after counting one more request.
pub open spec fn with_request(m: MetricsModel) -> MetricsModel {
    MetricsModel { requests: m.requests + 1, sizes: m.sizes, lats: m.lats }
}

/// `m` after recording one response-size sample.
pub open spec fn with_size(m: MetricsModel, bytes: u64) -> MetricsModel {
    MetricsModel { requests: m.requests, sizes: m.sizes.push(bytes), lats: m.lats }
}

/// `m` after recording one latency sample.
pub open spec fn with_latency(m: MetricsModel, nanos: u64) -> MetricsModel {
    MetricsModel { requests: m.requests, sizes: m.sizes, lats: m.lats.push(nanos) }
}

/// The sample a latency measurement yields: the measured nanoseconds, or zero
/// when the measurement failed (a failed clock reading is not fatal).
pub open spec fn lat_sample(elapsed: Option<u64>) -> u64 {
    match elapsed {
        Some(n) => n,
        None => 0,
    }
}

/// The `Content-Type` of the text exposition format.
pub open spec fn exposition_content_type() -> Seq<char> {
    "text/plain; version=0.0.4"@
}

/// The prometheus-owned instrument storage: one registry and the three
/// instruments registered with it, every instrument created once with a fixed
/// name, help text, bucket layout and the constant label `handler="all"`.
/// Opaque to the verifier; its contents are reached only through the named
/// spec functions below.
#[verifier::external_body]
pub struct PromInstruments {
    registry: prometheus::Registry,
    http_counter: prometheus::IntCounter,
    http_body_gauge: prometheus::Histogram,
    http_req_histogram: prometheus::Histogram,
}

/// The value of the request counter held inside `i`.
pub uninterp spec fn requests_of(i: PromInstruments) -> nat;

/// The response-size samples recorded into `i`, in recording order.
pub uninterp spec fn sizes_of(i: PromInstruments) -> Seq<u64>;

/// The latency samples recorded into `i`, in nanoseconds, in recording order.
pub uninterp spec fn lats_of(i: PromInstruments) -> Seq<u64>;

/// The text exposition payload of a registry whose counter stands at
/// `requests` and whose recorders hold `sizes` and `lats`. Names the result of
/// gathering and text-encoding the snapshot; it is a function of these three
/// values alone because the instrument names, help texts, labels and buckets
/// are fixed at construction and families are gathered in name order.
pub uninterp spec fn exposition_of(requests: nat, sizes: Seq<u64>, lats: Seq<u64>) -> Seq<u8>;

impl PromInstruments {
    /// Relies on prometheus::Registry::new, Opts/HistogramOpts,
    /// IntCounter::with_opts, Histogram::with_opts and Registry::register: a
    /// fresh registry holds exactly these three instruments, the counter at
    /// zero and both histograms empty. The names and label sets here are
    /// valid, so none of the constructors or registrations can fail.
    #[verifier::external_body]
    fn new_instruments() -> (r: PromInstruments)
        ensures
            requests_of(r) == 0,
            sizes_of(r) === Seq::<u64>::empty(),
            lats_of(r) === Seq::<u64>::empty(),
    {
        let registry = prometheus::Registry::new();
        let c = prometheus::IntCounter::with_opts(prometheus::Opts::new("example_http_requests_total", "Total number of HTTP requests made.").const_label("handler", "all")).unwrap();
        let g = prometheus::Histogram::with_opts(prometheus::HistogramOpts::new("example_http_response_size_bytes", "The metrics HTTP response sizes in bytes.").const_label("handler", "all")).unwrap();
        let h = prometheus::Histogram::with_opts(prometheus::HistogramOpts::new("example_http_request_duration_seconds", "The HTTP request latencies in seconds.").const_label("handler", "all")).unwrap();
        registry.register(Box::new(c.clone())).unwrap();
        registry.register(Box::new(g.clone())).unwrap();
        registry.register(Box::new(h.clone())).unwrap();
        PromInstruments { registry, http_counter: c, http_body_gauge: g, http_req_histogram: h }
    }

    /// Relies on prometheus::IntCounter::inc: adds one to the counter and
    /// touches nothing else. The underlying atomic would wrap at `u64::MAX`,
    /// which the precondition excludes.
    #[verifier::external_body]
    fn inc_requests(&mut self)
        requires
            requests_of(*old(self)) < u64::MAX,
        ensures
            requests_of(*final(self)) == requests_of(*old(self)) + 1,
            sizes_of(*final(self)) === sizes_of(*old(self)),
            lats_of(*final(self)) === lats_of(*old(self)),
    {
        self.http_counter.inc();
    }

    /// Relies on prometheus::Histogram::observe: appends one sample to the
    /// response-size recorder and touches nothing else.
    #[verifier::external_body]
    fn observe_size(&mut self, bytes: u64)
        ensures
            requests_of(*final(self)) == requests_of(*old(self)),
            sizes_of(*final(self)) === sizes_of(*old(self)).push(bytes),
            lats_of(*final(self)) === lats_of(*old(self)),
    {
        // the cast target is fixed by observe's argument type
        self.http_body_gauge.observe(bytes as _);
    }

    /// Relies on prometheus::Histogram::observe: appends one sample to the
    /// latency recorder and touches nothing else. The histogram stores the
    /// sample in seconds, converted from the nanoseconds given here.
    #[verifier::external_body]
    fn observe_latency(&mut self, nanos: u64)
        ensures
            requests_of(*final(self)) == requests_of(*old(self)),
            sizes_of(*final(self)) === sizes_of(*old(self)),
            lats_of(*final(self)) === lats_of(*old(self)).push(nanos),
    {
        self.http_req_histogram.observe(core::time::Duration::from_nanos(nanos).as_secs_f64());
    }

    /// Relies on prometheus::Registry::gather, TextEncoder::encode and
    /// TextEncoder::format_type: gather returns the three registered families
    /// (each always carries one metric, so none is pruned or rejected),
    /// encode cannot fail when writing into a `Vec` and always writes at
    /// least the `# TYPE` lines, and `format_type` is the constant
    /// `text/plain; version=0.0.4`. The payload is a function of the recorded
    /// samples alone, as [`exposition_of`]'s comment explains.
    #[verifier::external_body]
    fn export_text(&self) -> (r: (String, Vec<u8>))
        ensures
            r.1@ === exposition_of(requests_of(*self), sizes_of(*self), lats_of(*self)),
            r.1@.len() > 0,
            r.0@ === "text/plain; version=0.0.4"@,
    {
        let encoder = prometheus::TextEncoder::new();
        let mut buffer: Vec<u8> = Vec::new();
        encoder.encode(&self.registry.gather(), &mut buffer).unwrap();
        (encoder.format_type().to_string(), buffer)
    }
}

/// The shared service state: the registry with its three bound instruments,
/// constructed once at server start and then only mutated through the
/// recording operations below.
pub struct ServiceMetrics {
    prom: PromInstruments,
    count: u64,
}

impl View for ServiceMetrics {
    type V = MetricsModel;

    closed spec fn view(&self) -> MetricsModel {
        MetricsModel {
            requests: requests_of(self.prom),
            sizes: sizes_of(self.prom),
            lats: lats_of(self.prom),
        }
    }
}

impl ServiceMetrics {
    /// Well-formed: the executable request count mirrors the counter held by
    /// prometheus, so callers can test how full the counter is.
    pub closed spec fn wf(&self) -> bool {
        self.count as nat == requests_of(self.prom)
    }

    /// Construct the registry and bind the three instruments; nothing is
    /// recorded yet.
    pub fn new() -> (r: ServiceMetrics)
        ensures
            r.wf(),
            r@ === fresh_model(),
    {
        ServiceMetrics { prom: PromInstruments::new_instruments(), count: 0 }
    }

    /// The number of requests counted so far.
    pub fn request_count(&self) -> (r: u64)
        requires
            self.wf(),
        ensures
            r as nat == self@.requests,
    {
        self.count
    }

    /// Count one request. Total up to the machine limit of the counter.
    pub fn record_request(&mut self)
        requires
            old(self).wf(),
            old(self)@.requests < u64::MAX,
        ensures
            final(self).wf(),
            final(self)@ === with_request(old(self)@),
    {
        self.prom.inc_requests();
        self.count = self.count + 1;
    }

    /// Record one response-size sample.
    pub fn record_response_size(&mut self, bytes: u64)
        requires
            old(self).wf(),
        ensures
            final(self).wf(),
            final(self)@ === with_size(old(self)@, bytes),
    {
        self.prom.observe_size(bytes);
    }

    /// Record one latency sample, in nanoseconds. A failed measurement
    /// (`None`) records a zero sample rather than propagating an error.
    pub fn record_latency(&mut self, elapsed_nanos: Option<u64>)
        requires
            old(self).wf(),
        ensures
            final(self).wf(),
            final(self)@ === with_latency(old(self)@, lat_sample(elapsed_nanos)),
    {
        match elapsed_nanos {
            Some(n) => self.prom.observe_latency(n),
            None => self.prom.observe_latency(0),
        }
    }

    /// Serialize the current snapshot: the content type of the text
    /// exposition format and the payload bytes, which are never empty.
    pub fn export(&self) -> (r: (String, Vec<u8>))
        ensures
            r.1@ === exposition_of(self@.requests, self@.sizes, self@.lats),
            r.1@.len() > 0,
            r.0@ === exposition_content_type(),
    {
        self.prom.export_text()
    }
}

} // verus!
