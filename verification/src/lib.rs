//! Zicade: a local forwarding HTTP/HTTPS proxy's routing, configuration,
//! authentication and wire logic, with its contracts proved by Verus.

pub mod auth;
pub mod b64;
pub mod wiring;
pub mod cli;
pub mod config;
pub mod gate;
pub mod netmon;
pub mod observe;
pub mod proxy;
pub mod routing;
pub mod text;
pub mod tray;
