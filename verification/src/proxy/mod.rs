//! The proxy's decision logic: routing values, the per-connection upstream
//! auth driver, the HTTP/1.1 wire helpers for the upstream conversation,
//! request heads, tunnel close classification, live metrics and the shared
//! routing handle.

pub mod auth_state;
pub mod handle;
pub mod legs;
pub mod metrics;
pub mod request;
pub mod tunnel;
pub mod upstream;
pub mod wire;

pub use handle::RoutingHandle;
pub use metrics::ProxyMetrics;
pub use upstream::{RouteChoice, Routing, UpstreamAuth, UpstreamTarget, MAX_LEGS};
