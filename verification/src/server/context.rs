//! What a server is told when it starts.

use vstd::prelude::*;

verus! {

/// A socket address; the address is a number, its first byte the most significant.
#[allow(inconsistent_fields)]
#[derive(Clone, Copy, PartialEq, Eq, Structural, Debug)]
pub enum BindAddr {
    V4 { address: u32, port: u16 },
    V6 { address: u128, port: u16, flowinfo: u32, scope_id: u32 },
}

impl BindAddr {
    /// Whether this is an IPv4 address.
    pub fn is_ipv4(&self) -> (r: bool)
        ensures
            r == (self is V4),
    {
        match self {
            BindAddr::V4 { .. } => true,
            BindAddr::V6 { .. } => false,
        }
    }
}

/// Credentials that clients have to present.
#[derive(Clone)]
pub struct AuthMode {
    pub username: Option<String>,
    pub password: Option<String>,
}

/// Server context containing configuration and runtime parameters.
///
/// This struct holds all the necessary configuration for running a proxy server,
/// with network settings, listen backlog, timeouts, and authentication.
#[derive(Clone)]
pub struct Context<C> {
    /// The socket address to bind the server to
    pub bind: BindAddr,
    /// TCP listen backlog
    pub concurrent: u32,
    /// Connection timeout in seconds
    pub connect_timeout: u64,
    /// Authentication mode for client connections
    pub auth: AuthMode,
    /// Network connector for establishing outbound connections
    pub connector: C,
}

} // verus!
