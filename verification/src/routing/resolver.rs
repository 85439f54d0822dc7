//! The `PacBackend` seam and the `RouteResolver` that turns a raw PAC lookup
//! into a routing decision, applying the fail policy and auth inheritance.

use crate::config::{FailPolicy, PacConfig, UpstreamConfig};
use crate::routing::error::RoutingError;
use crate::routing::pac::PacResult;
use vstd::prelude::*;

verus! {

/// The raw PAC lookup seam. The real implementation is WinHTTP; tests inject
/// a fake.
pub trait PacBackend {
    /// Whether `r` is an answer this backend gives for `url`. A backend that
    /// says nothing of its answers keeps the default: any answer.
    open spec fn answers(&self, url: Seq<char>, r: Result<PacResult, RoutingError>) -> bool {
        true
    }

    /// Resolve the proxy decision for `url`.
    fn resolve(&self, url: &str) -> (r: Result<PacResult, RoutingError>)
        ensures
            self.answers(url@, r),
    ;
}

/// The routing decision for a single request.
#[derive(Debug, PartialEq, Eq)]
pub enum RouteDecision {
    /// Connect straight to the origin.
    Direct,
    /// Route through the given upstream (carrying its inherited auth).
    Upstream(UpstreamConfig),
}

/// The PAC policy: a `Proxy` result becomes an upstream that inherits
/// `pac.auth`; a backend error propagates under `FailPolicy::Error` and falls
/// back to `Direct` under `FailPolicy::Direct`.
pub open spec fn route_of(pac: PacConfig, lookup: Result<PacResult, RoutingError>) -> Result<RouteDecision, RoutingError> {
    match lookup {
        Ok(PacResult::Direct) => Ok(RouteDecision::Direct),
        Ok(PacResult::Proxy { host, port }) => Ok(
            RouteDecision::Upstream(UpstreamConfig { host, port, auth: pac.auth }),
        ),
        Err(err) => match pac.fail_policy {
            FailPolicy::Error => Err(err),
            FailPolicy::Direct => Ok(RouteDecision::Direct),
        },
    }
}

/// Resolves a request URL to a [`RouteDecision`] using a [`PacBackend`],
/// applying the PAC policy (auth inheritance + fail policy).
pub struct RouteResolver<B: PacBackend> {
    pac: PacConfig,
    backend: B,
}

impl<B: PacBackend> RouteResolver<B> {
    /// The PAC policy this resolver applies.
    pub closed spec fn spec_pac(&self) -> PacConfig {
        self.pac
    }

    /// The backend this resolver asks.
    pub closed spec fn spec_backend(&self) -> B {
        self.backend
    }

    /// Build a resolver from the PAC config and a backend.
    pub fn new(pac: PacConfig, backend: B) -> (r: Self)
        ensures
            r.spec_pac() == pac,
            r.spec_backend() == backend,
    {
        RouteResolver { pac, backend }
    }

    /// Apply the PAC policy to a backend lookup result.
    pub fn decide(&self, lookup: Result<PacResult, RoutingError>) -> (r: Result<RouteDecision, RoutingError>)
        ensures
            r == route_of(self.spec_pac(), lookup),
    {
        match lookup {
            Ok(PacResult::Direct) => Ok(RouteDecision::Direct),
            Ok(PacResult::Proxy { host, port }) => Ok(
                RouteDecision::Upstream(UpstreamConfig { host, port, auth: self.pac.auth.clone() }),
            ),
            Err(err) => match self.pac.fail_policy {
                FailPolicy::Error => Err(err),
                FailPolicy::Direct => Ok(RouteDecision::Direct),
            },
        }
    }

    /// Resolve `url` to a routing decision: the backend's answer for `url`
    /// under the PAC policy.
    pub fn route(&self, url: &str) -> (r: Result<RouteDecision, RoutingError>)
        ensures
            exists|lookup: Result<PacResult, RoutingError>|
                self.spec_backend().answers(url@, lookup) && r == #[trigger] route_of(
                    self.spec_pac(),
                    lookup,
                ),
            r matches Ok(RouteDecision::Upstream(up)) ==> up.auth == self.spec_pac().auth,
            r is Err ==> self.spec_pac().fail_policy == FailPolicy::Error,
    {
        let lookup = self.backend.resolve(url);
        self.decide(lookup)
    }
}

/// Auth inheritance: whatever the backend selects, an upstream decision always
/// carries the PAC auth, and a `Direct` fail policy never surfaces an error.
pub proof fn law_route_policy(pac: PacConfig, lookup: Result<PacResult, RoutingError>)
    ensures
        route_of(pac, lookup) matches Ok(RouteDecision::Upstream(up)) ==> up.auth == pac.auth,
        pac.fail_policy == FailPolicy::Direct ==> route_of(pac, lookup) is Ok,
        lookup is Ok ==> route_of(pac, lookup) is Ok,
{
}

} // verus!
