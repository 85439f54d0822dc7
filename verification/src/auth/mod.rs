//! Upstream authentication: the authenticator seam, the sans-I/O Negotiate
//! handshake state machine, and `Proxy-Authenticate` / `Proxy-Authorization`
//! header handling.

pub mod error;
pub mod handshake;
pub mod header;

pub use error::AuthError;
pub use handshake::{HandshakeStep, NegotiateHandshake, UpstreamAuthenticator, UpstreamResponse};
