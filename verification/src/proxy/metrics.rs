//! Live proxy counters, shared by every connection.
//!
//! The values are read and bumped concurrently by many connections, so no
//! call can promise what a read returns: each counter is whatever the
//! concurrent increments made it.

use std::sync::atomic::{AtomicU64, AtomicUsize, Ordering};
use std::sync::Arc;
use vstd::prelude::*;

verus! {

/// Cloneable handle to the proxy's live counters.
#[derive(Clone, Debug)]
pub struct ProxyMetrics {
    active: Arc<AtomicUsize>,
    total_requests: Arc<AtomicU64>,
    failed_requests: Arc<AtomicU64>,
    bytes_in: Arc<AtomicU64>,
    bytes_out: Arc<AtomicU64>,
}

impl Default for ProxyMetrics {
    fn default() -> Self {
        ProxyMetrics {
            active: Arc::new(AtomicUsize::new(0)),
            total_requests: Arc::new(AtomicU64::new(0)),
            failed_requests: Arc::new(AtomicU64::new(0)),
            bytes_in: Arc::new(AtomicU64::new(0)),
            bytes_out: Arc::new(AtomicU64::new(0)),
        }
    }
}

impl ProxyMetrics {
    /// Number of connections currently being served.
    pub fn active_connections(&self) -> usize {
        self.active.load(Ordering::Relaxed)
    }

    /// Total HTTP requests forwarded since start.
    pub fn total_requests(&self) -> u64 {
        self.total_requests.load(Ordering::Relaxed)
    }

    /// Total forwarded requests that failed (produced a `502`) since start.
    pub fn failed_requests(&self) -> u64 {
        self.failed_requests.load(Ordering::Relaxed)
    }

    /// Tunnel bytes relayed from upstreams to clients since start.
    pub fn bytes_in(&self) -> u64 {
        self.bytes_in.load(Ordering::Relaxed)
    }

    /// Tunnel bytes relayed from clients to upstreams since start.
    pub fn bytes_out(&self) -> u64 {
        self.bytes_out.load(Ordering::Relaxed)
    }

    /// Count one forwarded request.
    pub fn incr_request(&self) {
        self.total_requests.fetch_add(1, Ordering::Relaxed);
    }

    /// Count one failed forwarded request.
    pub fn incr_failed(&self) {
        self.failed_requests.fetch_add(1, Ordering::Relaxed);
    }

    /// Add a closed tunnel's byte counts (`down`: upstream to client, `up`:
    /// client to upstream).
    pub fn add_bytes(&self, down: u64, up: u64) {
        self.bytes_in.fetch_add(down, Ordering::Relaxed);
        self.bytes_out.fetch_add(up, Ordering::Relaxed);
    }

    /// Register a new active connection.
    pub fn connection_opened(&self) {
        self.active.fetch_add(1, Ordering::Relaxed);
    }

    /// Deregister an active connection.
    pub fn connection_closed(&self) {
        self.active.fetch_sub(1, Ordering::Relaxed);
    }
}

} // verus!
