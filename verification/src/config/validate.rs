//! Config validation. The platform-dependent rule (negotiate is Windows-only)
//! takes an injected [`ValidationCtx`] so both branches are testable anywhere.

use crate::config::error::ConfigError;
use crate::config::model::{AuthConfig, AuthMode, Config, CorpNetworkConfig, RoutingMode};
use crate::text::{chars_of, trim, trimmed};
use vstd::prelude::*;

verus! {

/// Platform capabilities the validator needs.
#[derive(Debug, Clone, Copy, PartialEq, Eq, Structural)]
pub struct ValidationCtx {
    /// Whether SSPI Negotiate is available on this platform.
    pub negotiate_supported: bool,
}

impl ValidationCtx {
    /// A context that supports Negotiate (as a real Windows box would).
    pub fn windows() -> (ctx: Self)
        ensures
            ctx.negotiate_supported,
    {
        ValidationCtx { negotiate_supported: true }
    }
}

/// A username that is absent or whitespace only.
pub open spec fn blank_username(u: Option<String>) -> bool {
    match u {
        Some(s) => trim(s@).len() == 0,
        None => true,
    }
}

/// The port rule: zero is not a port.
pub open spec fn port_violation(field: &'static str, port: u16) -> Option<ConfigError> {
    if port == 0 {
        Some(ConfigError::InvalidPort { field, port })
    } else {
        None
    }
}

/// The auth rules: negotiate needs platform support, basic needs a username.
pub open spec fn auth_violation(auth: AuthConfig, field: &'static str, ctx: ValidationCtx) -> Option<ConfigError> {
    if auth.mode == AuthMode::Negotiate && !ctx.negotiate_supported {
        Some(ConfigError::NegotiateUnsupported { field })
    } else if auth.mode == AuthMode::Basic && blank_username(auth.username) {
        Some(ConfigError::MissingCredentials { field })
    } else {
        None
    }
}

/// The corporate-network rules, enforced only when the network gate is enabled: at
/// least one non-blank suffix, and a non-zero poll interval.
pub open spec fn corp_violation(corp: CorpNetworkConfig) -> Option<ConfigError> {
    if !corp.enabled {
        None
    } else if !(exists|i: int|
        0 <= i < corp.dns_suffixes@.len() && trim(#[trigger] corp.dns_suffixes@[i]@).len() > 0) {
        Some(ConfigError::CorpNetwork { reason: "enabled requires at least one non-empty dnsSuffixes entry" })
    } else if corp.poll_seconds == 0 {
        Some(ConfigError::CorpNetwork { reason: "pollSeconds must be greater than zero" })
    } else {
        None
    }
}

/// The first rule `cfg` breaks, checked in order: the listen port, the section
/// the routing mode needs, the upstream's port and auth, the PAC auth, then the
/// corporate-network gate.
pub open spec fn first_violation(cfg: Config, ctx: ValidationCtx) -> Option<ConfigError> {
    if port_violation("listen.port", cfg.listen.port) is Some {
        port_violation("listen.port", cfg.listen.port)
    } else if cfg.routing.mode == RoutingMode::Upstream && cfg.routing.upstream is None {
        Some(ConfigError::MissingSection { mode: "upstream", missing: "upstream" })
    } else if cfg.routing.mode == RoutingMode::Pac && cfg.routing.pac is None {
        Some(ConfigError::MissingSection { mode: "pac", missing: "pac" })
    } else if cfg.routing.upstream is Some && port_violation(
        "routing.upstream.port",
        cfg.routing.upstream->Some_0.port,
    ) is Some {
        port_violation("routing.upstream.port", cfg.routing.upstream->Some_0.port)
    } else if cfg.routing.upstream is Some && auth_violation(
        cfg.routing.upstream->Some_0.auth,
        "routing.upstream.auth",
        ctx,
    ) is Some {
        auth_violation(cfg.routing.upstream->Some_0.auth, "routing.upstream.auth", ctx)
    } else if cfg.routing.pac is Some && auth_violation(
        cfg.routing.pac->Some_0.auth,
        "routing.pac.auth",
        ctx,
    ) is Some {
        auth_violation(cfg.routing.pac->Some_0.auth, "routing.pac.auth", ctx)
    } else if cfg.routing.corp_network is Some && corp_violation(
        cfg.routing.corp_network->Some_0,
    ) is Some {
        corp_violation(cfg.routing.corp_network->Some_0)
    } else {
        None
    }
}

impl Config {
    /// Validate the config against the given platform context. Returns the
    /// first violation found.
    pub fn validate(&self, ctx: &ValidationCtx) -> (r: Result<(), ConfigError>)
        ensures
            match first_violation(*self, *ctx) {
                Some(e) => r == Err::<(), ConfigError>(e),
                None => r is Ok,
            },
    {
        check_port("listen.port", self.listen.port)?;
        match self.routing.mode {
            RoutingMode::Upstream => {
                if self.routing.upstream.is_none() {
                    return Err(ConfigError::MissingSection { mode: "upstream", missing: "upstream" });
                }
            },
            RoutingMode::Pac => {
                if self.routing.pac.is_none() {
                    return Err(ConfigError::MissingSection { mode: "pac", missing: "pac" });
                }
            },
            RoutingMode::Direct => {},
        }
        if let Some(up) = &self.routing.upstream {
            check_port("routing.upstream.port", up.port)?;
            check_auth(&up.auth, "routing.upstream.auth", ctx)?;
        }
        if let Some(pac) = &self.routing.pac {
            check_auth(&pac.auth, "routing.pac.auth", ctx)?;
        }
        if let Some(corp) = &self.routing.corp_network {
            check_corp_network(corp)?;
        }
        Ok(())
    }
}

/// Validate the corporate-network gate. Only enforced when `enabled`.
fn check_corp_network(corp: &CorpNetworkConfig) -> (r: Result<(), ConfigError>)
    ensures
        match corp_violation(*corp) {
            Some(e) => r == Err::<(), ConfigError>(e),
            None => r is Ok,
        },
{
    if !corp.enabled {
        return Ok(());
    }
    let mut has_suffix = false;
    let mut i: usize = 0;
    while i < corp.dns_suffixes.len()
        invariant
            i <= corp.dns_suffixes@.len(),
            has_suffix == exists|k: int|
                0 <= k < i && trim(#[trigger] corp.dns_suffixes@[k]@).len() > 0,
        decreases corp.dns_suffixes.len() - i,
    {
        let chars = chars_of(corp.dns_suffixes[i].as_str());
        let t = trimmed(&chars);
        if t.len() > 0 {
            has_suffix = true;
        }
        i = i + 1;
    }
    if !has_suffix {
        return Err(ConfigError::CorpNetwork {
            reason: "enabled requires at least one non-empty dnsSuffixes entry",
        });
    }
    if corp.poll_seconds == 0 {
        return Err(ConfigError::CorpNetwork { reason: "pollSeconds must be greater than zero" });
    }
    Ok(())
}

fn check_port(field: &'static str, port: u16) -> (r: Result<(), ConfigError>)
    ensures
        match port_violation(field, port) {
            Some(e) => r == Err::<(), ConfigError>(e),
            None => r is Ok,
        },
{
    if port == 0 {
        Err(ConfigError::InvalidPort { field, port })
    } else {
        Ok(())
    }
}

/// Whether an optional username is absent or whitespace only.
fn username_is_blank(u: &Option<String>) -> (b: bool)
    ensures
        b == blank_username(*u),
{
    match u {
        Some(s) => {
            let chars = chars_of(s.as_str());
            let t = trimmed(&chars);
            t.len() == 0
        },
        None => true,
    }
}

fn check_auth(auth: &AuthConfig, field: &'static str, ctx: &ValidationCtx) -> (r: Result<(), ConfigError>)
    ensures
        match auth_violation(*auth, field, *ctx) {
            Some(e) => r == Err::<(), ConfigError>(e),
            None => r is Ok,
        },
{
    if auth.mode == AuthMode::Negotiate && !ctx.negotiate_supported {
        return Err(ConfigError::NegotiateUnsupported { field });
    }
    if auth.mode == AuthMode::Basic && username_is_blank(&auth.username) {
        return Err(ConfigError::MissingCredentials { field });
    }
    Ok(())
}

/// A config that passes validation has a usable listen port, the section its
/// routing mode names, and usable ports on every upstream it names.
pub proof fn law_valid_config_is_routable(cfg: Config, ctx: ValidationCtx)
    requires
        first_violation(cfg, ctx) is None,
    ensures
        cfg.listen.port != 0,
        cfg.routing.mode == RoutingMode::Upstream ==> cfg.routing.upstream is Some,
        cfg.routing.mode == RoutingMode::Pac ==> cfg.routing.pac is Some,
        cfg.routing.upstream matches Some(up) ==> up.port != 0,
{
}

/// Validation only depends on the platform for negotiate: a config that is
/// valid without SSPI support is valid with it too.
pub proof fn law_support_only_widens(cfg: Config)
    requires
        first_violation(cfg, ValidationCtx { negotiate_supported: false }) is None,
    ensures
        first_violation(cfg, ValidationCtx { negotiate_supported: true }) is None,
{
}


/// A config that validates names a usable credential for every Basic auth
/// section (a present username that is not blank) and uses Negotiate only
/// where the platform supports it, in both the upstream and the PAC auth.
pub proof fn law_valid_config_has_usable_auth(cfg: Config, ctx: ValidationCtx)
    requires
        first_violation(cfg, ctx) is None,
    ensures
        cfg.routing.upstream matches Some(up) ==> (up.auth.mode == AuthMode::Basic ==> (
        up.auth.username matches Some(u) && trim(u@).len() > 0)),
        cfg.routing.pac matches Some(pac) ==> (pac.auth.mode == AuthMode::Basic ==> (
        pac.auth.username matches Some(u) && trim(u@).len() > 0)),
        cfg.routing.upstream matches Some(up) ==> (up.auth.mode == AuthMode::Negotiate
            ==> ctx.negotiate_supported),
        cfg.routing.pac matches Some(pac) ==> (pac.auth.mode == AuthMode::Negotiate
            ==> ctx.negotiate_supported),
{
}

} // verus!
