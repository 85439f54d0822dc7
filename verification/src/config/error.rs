//! Typed errors for config load/save/validation.

use vstd::prelude::*;

verus! {

/// Errors produced while parsing, loading, saving, or validating config.
#[derive(Debug, Clone, PartialEq, Eq)]
pub enum ConfigError {
    /// The JSON was malformed or violated the schema (e.g. an unknown enum
    /// variant such as an unrecognized routing mode or fail policy); carries
    /// the parser's message.
    Parse(String),
    /// An I/O error occurred reading or writing the config file.
    Io { path: String, message: String },
    /// A port field was outside the valid range (must be 1-65535).
    InvalidPort { field: &'static str, port: u16 },
    /// A routing mode was selected without the section it requires.
    MissingSection { mode: &'static str, missing: &'static str },
    /// `auth.mode = negotiate` was set on a platform without SSPI support.
    NegotiateUnsupported { field: &'static str },
    /// `auth.mode = basic` was set without a (non-empty) username. The password
    /// may be empty for some proxies, but a username is always required.
    MissingCredentials { field: &'static str },
    /// `routing.corpNetwork` is enabled but misconfigured (e.g. no DNS
    /// suffixes, or a zero poll interval).
    CorpNetwork { reason: &'static str },
}

} // verus!
