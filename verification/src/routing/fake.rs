//! A deterministic [`PacBackend`] for tests: classifies "internal" URLs as
//! DIRECT and everything else as a fixed upstream proxy, plus a variant that
//! always errors (to exercise the fail policy).

use crate::routing::error::RoutingError;
use crate::routing::pac::PacResult;
use crate::routing::resolver::PacBackend;
use crate::text::{chars_of, contains_exec, contains_seq};
use vstd::prelude::*;
use vstd::string::StringExecFns;

verus! {

/// A deterministic PAC backend for tests.
#[derive(Debug, Clone)]
pub enum FakeBackend {
    /// Any URL containing `internal` resolves to `DIRECT`, everything else to
    /// the configured proxy.
    Classify {
        /// Proxy host returned for external URLs.
        proxy_host: String,
        /// Proxy port returned for external URLs.
        proxy_port: u16,
    },
    /// Always fails.
    Failing,
}

/// The word that marks an internal URL.
pub open spec fn internal_word() -> Seq<char> {
    seq!['i', 'n', 't', 'e', 'r', 'n', 'a', 'l']
}

impl FakeBackend {
    /// Build a classifying backend that sends external hosts to `host:port`.
    pub fn classify(proxy_host: &str, proxy_port: u16) -> (b: Self)
        ensures
            b matches FakeBackend::Classify { proxy_host: h, proxy_port: p } && h@ == proxy_host@
                && p == proxy_port,
    {
        FakeBackend::Classify { proxy_host: String::from_str(proxy_host), proxy_port }
    }

    /// Build a backend whose `resolve` always errors.
    pub fn failing() -> (b: Self)
        ensures
            b is Failing,
    {
        FakeBackend::Failing
    }
}

impl PacBackend for FakeBackend {
    /// Internal URLs are `DIRECT`, the rest go to the configured proxy; the
    /// failing backend always errors.
    open spec fn answers(&self, url: Seq<char>, r: Result<PacResult, RoutingError>) -> bool {
        match self {
            FakeBackend::Classify { proxy_host, proxy_port } => if contains_seq(url, internal_word()) {
                r == Ok::<PacResult, RoutingError>(PacResult::Direct)
            } else {
                r matches Ok(PacResult::Proxy { host, port }) && host@ == proxy_host@ && port
                    == *proxy_port
            },
            FakeBackend::Failing => r is Err && r->Err_0 is Backend,
        }
    }

    fn resolve(&self, url: &str) -> (r: Result<PacResult, RoutingError>)
    {
        match self {
            FakeBackend::Classify { proxy_host, proxy_port } => {
                let chars = chars_of(url);
                let word = vec!['i', 'n', 't', 'e', 'r', 'n', 'a', 'l'];
                assert(word@ =~= internal_word());
                if contains_exec(&chars, &word) {
                    Ok(PacResult::Direct)
                } else {
                    Ok(PacResult::Proxy { host: proxy_host.clone(), port: *proxy_port })
                }
            },
            FakeBackend::Failing => Err(RoutingError::Backend(String::from_str("fake backend failure"))),
        }
    }
}

} // verus!
