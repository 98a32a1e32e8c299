//! The proxy server.

pub mod context;
pub mod http;
