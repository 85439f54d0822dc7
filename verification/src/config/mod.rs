//! Configuration schema and validation.

pub mod error;
pub mod model;
pub mod validate;

pub use error::ConfigError;
pub use model::{
    AuthConfig, AuthMode, Config, CorpNetworkConfig, FailPolicy, ListenConfig, LoggingConfig,
    PacConfig, PacSource, RoutingConfig, RoutingMode, SspiPackage, UpstreamConfig, WebConfig,
};
pub use validate::ValidationCtx;
