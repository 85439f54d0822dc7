//! How the proxy routes outbound traffic: directly, through a fixed upstream
//! proxy, or per request via PAC.

use crate::config::PacConfig;
use vstd::prelude::*;

verus! {

/// Bound on upstream handshake legs, guarding against a looping/hostile upstream.
pub const MAX_LEGS: u32 = 12;

/// How to authenticate to the upstream proxy.
pub enum UpstreamAuth {
    /// No proxy authentication (the upstream grants requests directly).
    NoAuth,
    /// HTTP Basic. `credentials` is the ready-to-send `Proxy-Authorization`
    /// value (`Basic base64(user:pass)`); it is sent preemptively.
    Basic {
        /// The complete `Proxy-Authorization` header value.
        credentials: String,
    },
    /// Negotiate (SPNEGO/Kerberos-NTLM) through a fresh per-connection
    /// authenticator for the service principal `spn`.
    Negotiate {
        /// The service principal name, `HTTP/<upstream host>`.
        spn: String,
    },
}

impl UpstreamAuth {
    /// The scheme's name; never the credential.
    pub fn label(&self) -> (s: &'static str)
        ensures
            match self {
                UpstreamAuth::NoAuth => s == "None",
                UpstreamAuth::Basic { .. } => s == "Basic",
                UpstreamAuth::Negotiate { .. } => s == "Negotiate",
            },
    {
        match self {
            UpstreamAuth::NoAuth => "None",
            UpstreamAuth::Basic { .. } => "Basic",
            UpstreamAuth::Negotiate { .. } => "Negotiate",
        }
    }
}

impl Clone for UpstreamAuth {
    fn clone(&self) -> (r: Self)
        ensures
            r == *self,
    {
        match self {
            UpstreamAuth::NoAuth => UpstreamAuth::NoAuth,
            UpstreamAuth::Basic { credentials } => UpstreamAuth::Basic { credentials: credentials.clone() },
            UpstreamAuth::Negotiate { spn } => UpstreamAuth::Negotiate { spn: spn.clone() },
        }
    }
}

/// A configured upstream proxy target.
pub struct UpstreamTarget {
    /// The upstream proxy address as `host:port`.
    pub addr: String,
    /// How to authenticate to it.
    pub auth: UpstreamAuth,
}

impl Clone for UpstreamTarget {
    fn clone(&self) -> (r: Self)
        ensures
            r == *self,
    {
        UpstreamTarget { addr: self.addr.clone(), auth: self.auth.clone() }
    }
}

/// The per-request routing decision in PAC mode. Mirrors the fixed [`Routing`]
/// variants so PAC dispatch reuses the same direct/upstream paths.
pub enum RouteChoice {
    /// Connect straight to the origin.
    Direct,
    /// Route through this upstream proxy (carrying its inherited auth).
    Upstream(UpstreamTarget),
}

impl RouteChoice {
    /// The choice's name.
    pub fn label(&self) -> (s: &'static str)
        ensures
            match self {
                RouteChoice::Direct => s == "Direct",
                RouteChoice::Upstream(_) => s == "Upstream",
            },
    {
        match self {
            RouteChoice::Direct => "Direct",
            RouteChoice::Upstream(_) => "Upstream",
        }
    }
}

/// How the proxy routes outbound traffic.
pub enum Routing {
    /// Connect straight to origins.
    Direct,
    /// Route everything through the configured upstream proxy.
    Upstream(UpstreamTarget),
    /// Resolve each request through a PAC backend under this policy.
    Pac(PacConfig),
}

impl Routing {
    /// The routing's name; never a credential.
    pub fn label(&self) -> (s: &'static str)
        ensures
            match self {
                Routing::Direct => s == "Direct",
                Routing::Upstream(_) => s == "Upstream",
                Routing::Pac(_) => s == "Pac",
            },
    {
        match self {
            Routing::Direct => "Direct",
            Routing::Upstream(_) => "Upstream",
            Routing::Pac(_) => "Pac",
        }
    }
}

impl Default for Routing {
    fn default() -> (r: Self)
        ensures
            r is Direct,
    {
        Routing::Direct
    }
}

impl Clone for Routing {
    fn clone(&self) -> (r: Self)
        ensures
            r == *self,
    {
        match self {
            Routing::Direct => Routing::Direct,
            Routing::Upstream(t) => Routing::Upstream(t.clone()),
            Routing::Pac(p) => Routing::Pac(p.clone()),
        }
    }
}

} // verus!
