//! The private end of the tunnel.

pub mod config;
pub mod proxy;
pub mod tunnel_client;
