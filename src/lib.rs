//! Server bootstrap: configuration, URL resolution into socket addresses,
//! TLS context construction and the plans for primary and redirect listeners.
pub mod address;
pub mod bootstrap;
pub mod config;
pub mod lifecycle;
pub mod resolve;
pub mod tls;
