//! The config schema: listen address, routing mode and sections, logging and
//! web settings, with their defaults.

use vstd::prelude::*;
use vstd::string::StringExecFns;

verus! {

/// `127.0.0.1`.
pub open spec fn loopback_host() -> Seq<char> {
    seq!['1', '2', '7', '.', '0', '.', '0', '.', '1']
}

/// The default proxy listen port.
pub const DEFAULT_LISTEN_PORT: u16 = 3129;

/// The default corporate-network re-check interval, in seconds.
pub const DEFAULT_POLL_SECONDS: u64 = 30;

/// Top-level Zicade configuration.
#[derive(Debug, PartialEq, Eq)]
pub struct Config {
    pub listen: ListenConfig,
    pub routing: RoutingConfig,
    pub logging: LoggingConfig,
    pub web: WebConfig,
}

/// Loopback listen address for the proxy.
#[derive(Debug, PartialEq, Eq)]
pub struct ListenConfig {
    pub host: String,
    pub port: u16,
}

/// How each request is routed.
#[derive(Debug, Clone, Copy, PartialEq, Eq, Structural)]
pub enum RoutingMode {
    /// Straight to the origin; no upstream.
    Direct,
    /// Always through the one configured upstream proxy.
    Upstream,
    /// Resolve per-request via a PAC file.
    Pac,
}

/// Routing configuration: mode plus the sections each mode needs.
#[derive(Debug, PartialEq, Eq)]
pub struct RoutingConfig {
    pub mode: RoutingMode,
    pub upstream: Option<UpstreamConfig>,
    pub pac: Option<PacConfig>,
    /// Optional corporate-network gate. When present and enabled the effective
    /// routing follows the configured mode only while an active adapter's DNS
    /// suffix matches; off the corporate network it falls back to `Direct`.
    pub corp_network: Option<CorpNetworkConfig>,
}

/// A single upstream proxy endpoint with its auth policy.
#[derive(Debug, PartialEq, Eq)]
pub struct UpstreamConfig {
    pub host: String,
    pub port: u16,
    pub auth: AuthConfig,
}

/// Where the PAC script comes from.
#[derive(Debug, Clone, Copy, PartialEq, Eq, Structural)]
pub enum PacSource {
    /// WinHTTP auto-detection (WPAD).
    Auto,
    /// A local file path.
    File,
    /// A remote URL.
    Url,
}

/// What to do when PAC resolution fails.
#[derive(Debug, Clone, Copy, PartialEq, Eq, Structural)]
pub enum FailPolicy {
    /// Fail the request with an error.
    Error,
    /// Fall back to a DIRECT connection.
    Direct,
}

/// PAC routing configuration.
#[derive(Debug, PartialEq, Eq)]
pub struct PacConfig {
    pub source: PacSource,
    pub path: Option<String>,
    pub url: Option<String>,
    pub fail_policy: FailPolicy,
    /// Applied to PAC-selected upstreams.
    pub auth: AuthConfig,
}

/// Corporate-network detection gate.
///
/// When `enabled`, the configured routing applies only while at least one
/// active DNS suffix matches one of `dns_suffixes` (case-insensitive,
/// dot-boundary). Defaults to disabled.
#[derive(Debug, PartialEq, Eq)]
pub struct CorpNetworkConfig {
    pub enabled: bool,
    pub dns_suffixes: Vec<String>,
    /// How often (seconds) to re-check the network. Default 30.
    pub poll_seconds: u64,
}

/// Upstream authentication scheme.
#[derive(Debug, Clone, Copy, PartialEq, Eq, Structural)]
pub enum AuthMode {
    /// No upstream authentication.
    NoAuth,
    /// HTTP Basic (credentials in config).
    Basic,
    /// Windows SSPI Negotiate/NTLM (Windows-only).
    Negotiate,
}

/// The SSPI security package used for a Negotiate-mode upstream handshake.
#[derive(Debug, Clone, Copy, PartialEq, Eq, Structural)]
pub enum SspiPackage {
    /// The `NTLM` package. Default.
    Ntlm,
    /// The `Negotiate` package (SPNEGO; Kerberos when an SPN is available).
    Negotiate,
}

/// Authentication configuration for an upstream.
#[derive(Debug, PartialEq, Eq)]
pub struct AuthConfig {
    pub mode: AuthMode,
    pub package: SspiPackage,
    pub username: Option<String>,
    pub password: Option<String>,
}

/// Web UI / local API configuration.
#[derive(Debug, Clone, Copy, PartialEq, Eq, Structural)]
pub struct WebConfig {
    /// Require the `X-Zicade-Token` header on mutations. Default `false`.
    pub auth_required: bool,
}

/// Logging configuration.
#[derive(Debug, PartialEq, Eq)]
pub struct LoggingConfig {
    pub level: String,
    pub format: String,
}

// ---------------------------------------------------------------------------
// Defaults
// ---------------------------------------------------------------------------

impl Default for ListenConfig {
    fn default() -> (c: Self)
        ensures
            c.host@ == loopback_host(),
            c.port == DEFAULT_LISTEN_PORT,
    {
        let host = String::from_str("127.0.0.1");
        proof {
            reveal_strlit("127.0.0.1");
        }
        assert(host@ =~= loopback_host());
        ListenConfig { host, port: DEFAULT_LISTEN_PORT }
    }
}

impl Default for RoutingMode {
    fn default() -> (m: Self)
        ensures
            m == RoutingMode::Direct,
    {
        RoutingMode::Direct
    }
}

impl Default for PacSource {
    fn default() -> (s: Self)
        ensures
            s == PacSource::Auto,
    {
        PacSource::Auto
    }
}

impl Default for FailPolicy {
    fn default() -> (p: Self)
        ensures
            p == FailPolicy::Error,
    {
        FailPolicy::Error
    }
}

impl Default for AuthMode {
    fn default() -> (m: Self)
        ensures
            m == AuthMode::NoAuth,
    {
        AuthMode::NoAuth
    }
}

impl Default for SspiPackage {
    fn default() -> (p: Self)
        ensures
            p == SspiPackage::Ntlm,
    {
        SspiPackage::Ntlm
    }
}

impl Default for AuthConfig {
    fn default() -> (a: Self)
        ensures
            a == (AuthConfig {
                mode: AuthMode::NoAuth,
                package: SspiPackage::Ntlm,
                username: None,
                password: None,
            }),
    {
        AuthConfig { mode: AuthMode::NoAuth, package: SspiPackage::Ntlm, username: None, password: None }
    }
}

impl Default for WebConfig {
    fn default() -> (w: Self)
        ensures
            !w.auth_required,
    {
        WebConfig { auth_required: false }
    }
}

impl Default for LoggingConfig {
    fn default() -> (l: Self)
        ensures
            l.level@ == seq!['i', 'n', 'f', 'o'],
            l.format@ == seq!['j', 's', 'o', 'n'],
    {
        let level = String::from_str("info");
        let format = String::from_str("json");
        proof {
            reveal_strlit("info");
            reveal_strlit("json");
        }
        assert(level@ =~= seq!['i', 'n', 'f', 'o']);
        assert(format@ =~= seq!['j', 's', 'o', 'n']);
        LoggingConfig { level, format }
    }
}

impl Default for PacConfig {
    fn default() -> (p: Self)
        ensures
            p == (PacConfig {
                source: PacSource::Auto,
                path: None,
                url: None,
                fail_policy: FailPolicy::Error,
                auth: AuthConfig {
                    mode: AuthMode::NoAuth,
                    package: SspiPackage::Ntlm,
                    username: None,
                    password: None,
                },
            }),
    {
        PacConfig {
            source: PacSource::Auto,
            path: None,
            url: None,
            fail_policy: FailPolicy::Error,
            auth: AuthConfig::default(),
        }
    }
}

/// Default re-check interval for [`CorpNetworkConfig::poll_seconds`].
pub fn default_poll_seconds() -> (s: u64)
    ensures
        s == DEFAULT_POLL_SECONDS,
{
    DEFAULT_POLL_SECONDS
}

impl Default for CorpNetworkConfig {
    fn default() -> (c: Self)
        ensures
            !c.enabled,
            c.dns_suffixes@.len() == 0,
            c.poll_seconds == DEFAULT_POLL_SECONDS,
    {
        CorpNetworkConfig { enabled: false, dns_suffixes: Vec::new(), poll_seconds: default_poll_seconds() }
    }
}

impl Default for RoutingConfig {
    fn default() -> (r: Self)
        ensures
            r == (RoutingConfig {
                mode: RoutingMode::Direct,
                upstream: None,
                pac: None,
                corp_network: None,
            }),
    {
        RoutingConfig { mode: RoutingMode::Direct, upstream: None, pac: None, corp_network: None }
    }
}

impl Default for Config {
    fn default() -> (c: Self)
        ensures
            c.listen.host@ == loopback_host(),
            c.listen.port == DEFAULT_LISTEN_PORT,
            c.routing == (RoutingConfig {
                mode: RoutingMode::Direct,
                upstream: None,
                pac: None,
                corp_network: None,
            }),
            c.logging.level@ == seq!['i', 'n', 'f', 'o'],
            c.logging.format@ == seq!['j', 's', 'o', 'n'],
            !c.web.auth_required,
    {
        Config {
            listen: ListenConfig::default(),
            routing: RoutingConfig::default(),
            logging: LoggingConfig::default(),
            web: WebConfig::default(),
        }
    }
}

// ---------------------------------------------------------------------------
// Copies
// ---------------------------------------------------------------------------

/// A copy of an optional string.
pub fn copy_opt_string(s: &Option<String>) -> (r: Option<String>)
    ensures
        r == *s,
{
    match s {
        Some(v) => Some(v.clone()),
        None => None,
    }
}

/// A copy of a list of strings.
pub fn copy_strings(v: &Vec<String>) -> (r: Vec<String>)
    ensures
        r@ == v@,
{
    let mut r: Vec<String> = Vec::new();
    let mut i: usize = 0;
    while i < v.len()
        invariant
            i <= v.len(),
            r@ == v@.take(i as int),
        decreases v.len() - i,
    {
        r.push(v[i].clone());
        assert(v@.take(i + 1) =~= v@.take(i as int).push(v@[i as int]));
        i = i + 1;
    }
    assert(v@.take(v.len() as int) =~= v@);
    r
}

impl Clone for AuthConfig {
    fn clone(&self) -> (r: Self)
        ensures
            r == *self,
    {
        AuthConfig {
            mode: self.mode,
            package: self.package,
            username: copy_opt_string(&self.username),
            password: copy_opt_string(&self.password),
        }
    }
}

impl Clone for UpstreamConfig {
    fn clone(&self) -> (r: Self)
        ensures
            r == *self,
    {
        UpstreamConfig { host: self.host.clone(), port: self.port, auth: self.auth.clone() }
    }
}

impl Clone for PacConfig {
    fn clone(&self) -> (r: Self)
        ensures
            r == *self,
    {
        PacConfig {
            source: self.source,
            path: copy_opt_string(&self.path),
            url: copy_opt_string(&self.url),
            fail_policy: self.fail_policy,
            auth: self.auth.clone(),
        }
    }
}

impl Clone for CorpNetworkConfig {
    fn clone(&self) -> (r: Self)
        ensures
            r.enabled == self.enabled,
            r.dns_suffixes@ == self.dns_suffixes@,
            r.poll_seconds == self.poll_seconds,
    {
        CorpNetworkConfig {
            enabled: self.enabled,
            dns_suffixes: copy_strings(&self.dns_suffixes),
            poll_seconds: self.poll_seconds,
        }
    }
}

impl Clone for ListenConfig {
    fn clone(&self) -> (r: Self)
        ensures
            r == *self,
    {
        ListenConfig { host: self.host.clone(), port: self.port }
    }
}

impl Clone for LoggingConfig {
    fn clone(&self) -> (r: Self)
        ensures
            r == *self,
    {
        LoggingConfig { level: self.level.clone(), format: self.format.clone() }
    }
}

/// Two routing configurations with the same mode and sections, the network gate's
/// suffix list compared by its contents.
pub open spec fn same_routing(a: RoutingConfig, b: RoutingConfig) -> bool {
    &&& a.mode == b.mode
    &&& a.upstream == b.upstream
    &&& a.pac == b.pac
    &&& a.corp_network is Some <==> b.corp_network is Some
    &&& a.corp_network matches Some(x) ==> {
        let y = b.corp_network->Some_0;
        &&& x.enabled == y.enabled
        &&& x.dns_suffixes@ == y.dns_suffixes@
        &&& x.poll_seconds == y.poll_seconds
    }
}

impl Clone for RoutingConfig {
    fn clone(&self) -> (r: Self)
        ensures
            same_routing(r, *self),
    {
        let corp_network = match &self.corp_network {
            Some(c) => Some(c.clone()),
            None => None,
        };
        let upstream = match &self.upstream {
            Some(u) => Some(u.clone()),
            None => None,
        };
        let pac = match &self.pac {
            Some(p) => Some(p.clone()),
            None => None,
        };
        RoutingConfig { mode: self.mode, upstream, pac, corp_network }
    }
}

impl Clone for Config {
    fn clone(&self) -> (r: Self)
        ensures
            r.listen == self.listen,
            same_routing(r.routing, self.routing),
            r.logging == self.logging,
            r.web == self.web,
    {
        Config {
            listen: self.listen.clone(),
            routing: self.routing.clone(),
            logging: self.logging.clone(),
            web: self.web,
        }
    }
}

impl RoutingConfig {
    /// Build the effective upstream for a PAC-selected proxy `host:port`,
    /// inheriting `routing.pac.auth` so the handshake can run. Returns `None`
    /// when there is no PAC config (e.g. an internal/DIRECT host carries no
    /// upstream).
    pub fn pac_upstream(&self, host: &str, port: u16) -> (r: Option<UpstreamConfig>)
        ensures
            match self.pac {
                Some(pac) => r == Some(
                    UpstreamConfig { host: r->Some_0.host, port, auth: pac.auth },
                ) && r->Some_0.host@ == host@,
                None => r is None,
            },
    {
        match &self.pac {
            Some(pac) => Some(UpstreamConfig { host: String::from_str(host), port, auth: pac.auth.clone() }),
            None => None,
        }
    }
}

} // verus!
