//! A mutual-TLS side-car proxy: configuration, trust material, and the
//! per-connection and accept-loop decisions, verified.

pub mod config;
pub mod address;
pub mod error;
pub mod tls;
pub mod session;
pub mod supervisor;
pub mod proxy;
pub mod laws;
