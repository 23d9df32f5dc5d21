//! Socket addresses as plain values.

use vstd::prelude::*;

verus! {

/// A destination socket address: an IP address and a port.
#[derive(Clone, Copy, Debug, PartialEq, Eq, Hash, Structural)]
pub enum SocketAddr {
    /// An IPv4 address, its four octets as one number with the first octet
    /// highest, and a port.
    V4(u32, u16),
    /// An IPv6 address, its sixteen octets as one number with the first
    /// octet highest, and a port.
    V6(u128, u16),
}

impl SocketAddr {
    /// The port of the address.
    pub open spec fn spec_port(self) -> u16 {
        match self {
            SocketAddr::V4(_, port) => port,
            SocketAddr::V6(_, port) => port,
        }
    }

    /// The port of the address.
    pub fn port(&self) -> (p: u16)
        ensures
            p == self.spec_port(),
    {
        match *self {
            SocketAddr::V4(_, port) => port,
            SocketAddr::V6(_, port) => port,
        }
    }
}

} // verus!
