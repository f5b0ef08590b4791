//! The inbound side of an MCP proxy.
//!
//! A control plane describes listeners ([`xds`]). Each is built from its description
//! ([`listener`]), which may ask for TLS ([`tls`]), then served ([`serving`]), and started and
//! stopped as descriptions come and go ([`manager`]). What the program starts is decided by its
//! configuration ([`config`]).
//!
//! Nothing in this library waits, reads a file or opens a socket. Where such work is needed, a
//! function says so, and another takes the outcome.

pub mod build_laws;
pub mod config;
pub mod config_laws;
pub mod decimal;
pub mod listener;
pub mod listener_laws;
pub mod manager;
pub mod manager_laws;
pub mod peers;
pub mod running;
pub mod running_laws;
pub mod serving;
pub mod serving_laws;
pub mod tls;
pub mod tls_laws;
pub mod xds;
