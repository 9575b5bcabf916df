//! Relying-party client for a strong-authentication service: request bodies,
//! response resolution and transport construction.

pub mod client;
pub mod config;
pub mod deps;
pub mod json;
pub mod error;
pub mod model;
pub mod tls;

