//! Routing: PAC result parsing, the PAC backend seam, the resolver that applies
//! the PAC policy, and a deterministic backend for tests.

pub mod error;
pub mod fake;
pub mod pac;
pub mod resolver;

pub use error::RoutingError;
pub use fake::FakeBackend;
pub use pac::PacResult;
pub use resolver::{PacBackend, RouteDecision, RouteResolver};
