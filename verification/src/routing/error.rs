//! Typed errors for PAC routing.

use vstd::prelude::*;

verus! {

/// Errors produced while resolving a route via a PAC backend.
#[derive(Debug, Clone, PartialEq, Eq)]
pub enum RoutingError {
    /// The PAC backend (e.g. WinHTTP) failed to resolve a proxy for the URL.
    Backend(String),
    /// The current platform has no PAC backend (not Windows).
    UnsupportedPlatform,
}

} // verus!
