//! Socket addresses as plain values.

use vstd::prelude::*;

verus! {

/// The address family of a socket.
#[derive(Clone, Copy, PartialEq, Eq, Structural, Debug)]
pub enum Domain {
    Ipv4,
    Ipv6,
}

/// An internet socket address: the host as one integer in network order,
/// and the port.
#[allow(inconsistent_fields)]
#[derive(Clone, Copy, PartialEq, Eq, Structural, Debug)]
pub enum SocketAddr {
    V4 { ip: u32, port: u16 },
    V6 { ip: u128, port: u16, flowinfo: u32, scope_id: u32 },
}

impl SocketAddr {
    /// The family of the socket that can reach this address: always the
    /// address's own.
    pub open spec fn spec_domain(&self) -> Domain {
        match *self {
            SocketAddr::V4 { .. } => Domain::Ipv4,
            SocketAddr::V6 { .. } => Domain::Ipv6,
        }
    }

    #[verifier::when_used_as_spec(spec_domain)]
    pub fn domain(&self) -> (d: Domain)
        ensures
            d == self.spec_domain(),
    {
        match self {
            SocketAddr::V4 { .. } => Domain::Ipv4,
            SocketAddr::V6 { .. } => Domain::Ipv6,
        }
    }

    pub open spec fn spec_port(&self) -> u16 {
        match *self {
            SocketAddr::V4 { port, .. } => port,
            SocketAddr::V6 { port, .. } => port,
        }
    }

    #[verifier::when_used_as_spec(spec_port)]
    pub fn port(&self) -> (p: u16)
        ensures
            p == self.spec_port(),
    {
        match self {
            SocketAddr::V4 { port, .. } => *port,
            SocketAddr::V6 { port, .. } => *port,
        }
    }
}

} // verus!
