//! Typed auth errors.

use vstd::prelude::*;

verus! {

/// Errors from the Negotiate handshake or an authenticator.
#[derive(Debug, Clone, PartialEq, Eq)]
pub enum AuthError {
    /// The upstream kept challenging past the leg cap (guards against loops).
    TooManyLegs { max: u32 },
    /// The upstream returned 407 with no continuation after a token was sent:
    /// authentication was refused.
    Rejected,
    /// The underlying authenticator (e.g. SSPI) failed.
    Authenticator(String),
}

} // verus!
