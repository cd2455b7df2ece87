//! The public end of the tunnel.

pub mod auth;
pub mod client_ip;
pub mod config;
pub mod headers;
pub mod proxy;
