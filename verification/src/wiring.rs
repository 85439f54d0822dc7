//! Map a validated [`Config`] onto the proxy's [`Routing`], and a PAC lookup
//! onto a per-request [`RouteChoice`].
//!
//! Direct is a straight pass-through. Upstream builds an [`UpstreamTarget`],
//! mapping the auth mode onto the proxy's [`UpstreamAuth`]. PAC mode runs the
//! proxy Direct: per-request PAC routing is not wired into the data path.
//! Basic upstream auth is not wired either: it connects without proxy auth.

use crate::config::{AuthConfig, AuthMode, Config, FailPolicy, RoutingConfig, RoutingMode};
use crate::proxy::request::{authority_target, authority_text};
use crate::proxy::upstream::{RouteChoice, Routing, UpstreamAuth, UpstreamTarget};
use crate::routing::{PacResult, RoutingError};
use vstd::prelude::*;
use vstd::string::StringExecFns;

verus! {

/// Why a config could not be turned into routing.
#[derive(Debug, Clone, Copy, PartialEq, Eq, Structural)]
pub enum BuildError {
    /// `routing.mode = upstream` without a `routing.upstream` section.
    MissingUpstream,
    /// `routing.mode = pac` without a `routing.pac` section.
    MissingPac,
}

impl BuildError {
    /// The error's message.
    pub fn message(&self) -> (s: &'static str)
        ensures
            s == match self {
                BuildError::MissingUpstream => "routing.mode = upstream requires a [routing.upstream] section",
                BuildError::MissingPac => "routing.mode = pac requires a [routing.pac] section",
            },
    {
        match self {
            BuildError::MissingUpstream => "routing.mode = upstream requires a [routing.upstream] section",
            BuildError::MissingPac => "routing.mode = pac requires a [routing.pac] section",
        }
    }
}

/// The service principal an upstream host is authenticated as: `HTTP/<host>`.
pub open spec fn spn_of(host: Seq<char>) -> Seq<char> {
    "HTTP/"@ + host
}

/// How an upstream at `host` authenticates under `auth`: Basic is not wired
/// and goes without proxy auth; Negotiate uses the host's HTTP principal.
pub open spec fn auth_for(mode: AuthMode, host: Seq<char>) -> UpstreamAuthView {
    match mode {
        AuthMode::NoAuth => UpstreamAuthView::NoAuth,
        AuthMode::Basic => UpstreamAuthView::NoAuth,
        AuthMode::Negotiate => UpstreamAuthView::Negotiate(spn_of(host)),
    }
}

/// The abstract value of an [`UpstreamAuth`].
pub enum UpstreamAuthView {
    NoAuth,
    Basic(Seq<char>),
    Negotiate(Seq<char>),
}

pub open spec fn auth_view(a: UpstreamAuth) -> UpstreamAuthView {
    match a {
        UpstreamAuth::NoAuth => UpstreamAuthView::NoAuth,
        UpstreamAuth::Basic { credentials } => UpstreamAuthView::Basic(credentials@),
        UpstreamAuth::Negotiate { spn } => UpstreamAuthView::Negotiate(spn@),
    }
}

/// The target for an upstream at `host:port` under `mode`.
pub open spec fn target_is(t: UpstreamTarget, host: Seq<char>, port: u16, mode: AuthMode) -> bool {
    &&& t.addr@ == authority_text(host, Some(port))
    &&& auth_view(t.auth) == auth_for(mode, host)
}

/// Map an [`AuthConfig`] onto the proxy's [`UpstreamAuth`].
pub fn build_auth(auth: &AuthConfig, host: &str) -> (r: UpstreamAuth)
    ensures
        auth_view(r) == auth_for(auth.mode, host@),
{
    match auth.mode {
        AuthMode::NoAuth => UpstreamAuth::NoAuth,
        // Basic upstream auth is not wired: connect without proxy auth.
        AuthMode::Basic => UpstreamAuth::NoAuth,
        AuthMode::Negotiate => {
            let mut spn = String::from_str("HTTP/");
            spn.append(host);
            UpstreamAuth::Negotiate { spn }
        },
    }
}

fn build_upstream(config: &Config) -> (r: Result<Routing, BuildError>)
    ensures
        match config.routing.upstream {
            Some(up) => r matches Ok(Routing::Upstream(t)) && target_is(t, up.host@, up.port, up.auth.mode),
            None => r == Err::<Routing, BuildError>(BuildError::MissingUpstream),
        },
{
    let up = match &config.routing.upstream {
        Some(up) => up,
        None => {
            return Err(BuildError::MissingUpstream);
        },
    };
    let addr = authority_target(up.host.as_str(), Some(up.port));
    let auth = build_auth(&up.auth, up.host.as_str());
    Ok(Routing::Upstream(UpstreamTarget { addr, auth }))
}

/// Build the proxy [`Routing`] for the given config.
pub fn build_routing(config: &Config) -> (r: Result<Routing, BuildError>)
    ensures
        match config.routing.mode {
            RoutingMode::Direct => r matches Ok(Routing::Direct),
            RoutingMode::Upstream => match config.routing.upstream {
                Some(up) => r matches Ok(Routing::Upstream(t)) && target_is(
                    t,
                    up.host@,
                    up.port,
                    up.auth.mode,
                ),
                None => r == Err::<Routing, BuildError>(BuildError::MissingUpstream),
            },
            RoutingMode::Pac => match config.routing.pac {
                Some(_) => r matches Ok(Routing::Direct),
                None => r == Err::<Routing, BuildError>(BuildError::MissingPac),
            },
        },
{
    match config.routing.mode {
        RoutingMode::Direct => Ok(Routing::Direct),
        RoutingMode::Upstream => build_upstream(config),
        RoutingMode::Pac => {
            if config.routing.pac.is_none() {
                return Err(BuildError::MissingPac);
            }
            // The PAC data path is not wired: run Direct.
            Ok(Routing::Direct)
        },
    }
}

/// The routing a gate applies for a config: the built routing, or `Direct`
/// when the config cannot be built.
pub fn rebuild_or_direct(config: &Config) -> (r: Routing)
    ensures
        match (config.routing.mode, config.routing.upstream) {
            (RoutingMode::Upstream, Some(up)) => r matches Routing::Upstream(t) && target_is(
                t,
                up.host@,
                up.port,
                up.auth.mode,
            ),
            _ => r is Direct,
        },
{
    match build_routing(config) {
        Ok(r) => r,
        Err(_) => Routing::Direct,
    }
}

/// The per-request choice for a PAC lookup: a selected proxy becomes an
/// upstream that inherits `routing.pac.auth`; `DIRECT` (or no PAC section)
/// goes direct; a lookup error falls back to direct under
/// `failPolicy = direct` and propagates otherwise.
pub fn to_route_choice(result: Result<PacResult, RoutingError>, routing: &RoutingConfig) -> (r: Result<
    RouteChoice,
    RoutingError,
>)
    ensures
        match result {
            Ok(PacResult::Direct) => r matches Ok(RouteChoice::Direct),
            Ok(PacResult::Proxy { host, port }) => match routing.pac {
                Some(pac) => r matches Ok(RouteChoice::Upstream(t)) && target_is(
                    t,
                    host@,
                    port,
                    pac.auth.mode,
                ),
                None => r matches Ok(RouteChoice::Direct),
            },
            Err(e) => match routing.pac {
                Some(pac) => if pac.fail_policy == FailPolicy::Direct {
                    r matches Ok(RouteChoice::Direct)
                } else {
                    r == Err::<RouteChoice, RoutingError>(e)
                },
                None => r == Err::<RouteChoice, RoutingError>(e),
            },
        },
{
    match result {
        Ok(PacResult::Direct) => Ok(RouteChoice::Direct),
        Ok(PacResult::Proxy { host, port }) => match routing.pac_upstream(host.as_str(), port) {
            Some(up) => {
                let addr = authority_target(up.host.as_str(), Some(up.port));
                let auth = build_auth(&up.auth, up.host.as_str());
                Ok(RouteChoice::Upstream(UpstreamTarget { addr, auth }))
            },
            None => Ok(RouteChoice::Direct),
        },
        Err(e) => match &routing.pac {
            Some(pac) => match pac.fail_policy {
                FailPolicy::Direct => Ok(RouteChoice::Direct),
                FailPolicy::Error => Err(e),
            },
            None => Err(e),
        },
    }
}

/// The status label of a routing mode.
pub fn routing_mode_label(mode: RoutingMode) -> (s: &'static str)
    ensures
        s == match mode {
            RoutingMode::Direct => "direct",
            RoutingMode::Upstream => "upstream",
            RoutingMode::Pac => "pac",
        },
{
    match mode {
        RoutingMode::Direct => "direct",
        RoutingMode::Upstream => "upstream",
        RoutingMode::Pac => "pac",
    }
}

} // verus!
