//! Socket addresses as plain values.

use vstd::prelude::*;

verus! {

/// The host part of a socket address.
#[derive(Clone, Copy, Debug, PartialEq, Eq, Structural)]
pub enum IpAddress {
    /// An IPv4 address, most significant octet first.
    V4(u8, u8, u8, u8),
    /// An IPv6 address as its 128 bits, most significant first.
    V6(u128),
}

/// A host and a port.
#[derive(Clone, Copy, Debug, PartialEq, Eq, Structural)]
pub struct SocketAddress {
    pub ip: IpAddress,
    pub port: u16,
}

/// The IPv4 loopback host, 127.0.0.1.
pub open spec fn loopback_v4() -> IpAddress {
    IpAddress::V4(127, 0, 0, 1)
}

impl SocketAddress {
    /// An address from its two parts.
    pub fn new(ip: IpAddress, port: u16) -> (addr: SocketAddress)
        ensures
            addr == (SocketAddress { ip, port }),
    {
        SocketAddress { ip, port }
    }

    /// The IPv4 loopback host with the given port.
    pub fn loopback(port: u16) -> (addr: SocketAddress)
        ensures
            addr == (SocketAddress { ip: loopback_v4(), port }),
    {
        SocketAddress { ip: IpAddress::V4(127, 0, 0, 1), port }
    }
}

} // verus!
