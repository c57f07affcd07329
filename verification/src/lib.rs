//! An embedded administrative metrics endpoint: a small HTTP service that
//! exposes three operational instruments (a request counter, a response-size
//! recorder and a request-latency recorder) in the Prometheus text exposition
//! format, and coordinates its own graceful shutdown.
//!
//! The library holds the verified core: the instrument registry and its
//! model, the request router, and the shutdown coordinator's state machine.
//! The transport around it (sockets, HTTP framing, the async accept loop)
//! hands the router plain values and takes plain values back.

pub mod clock;
pub mod http;
pub mod instruments;
pub mod laws;
pub mod router;
pub mod shutdown;

pub use http::HttpMethod;
pub use http::Response;
pub use instruments::ServiceMetrics;
pub use shutdown::Coordinator;
