use vstd::prelude::*;

verus! {

/// An endpoint of the transport: an IP address and a port.
/// The IPv4 address is held as its 32 bits, most significant octet first;
/// the IPv6 address as its 128 bits, with its flow label and scope.
#[derive(Debug, Clone, Copy, PartialEq, Eq, Structural)]
pub enum SocketAddress {
    V4 { ip: u32, port: u16 },
    V6 { ip6: u128, port: u16, flowinfo: u32, scope_id: u32 },
}

/// The address family a socket is created in.
#[derive(Debug, Clone, Copy, PartialEq, Eq, Structural)]
pub enum Family {
    Ipv4,
    Ipv6,
}

/// The 32-bit value of the IPv4 address `a.b.c.d`.
pub open spec fn ipv4_bits(a: u8, b: u8, c: u8, d: u8) -> int {
    a as int * 0x1000000 + b as int * 0x10000 + c as int * 0x100 + d as int
}

impl SocketAddress {
    /// The IPv4 endpoint `a.b.c.d:port`.
    pub fn v4(a: u8, b: u8, c: u8, d: u8, port: u16) -> (r: SocketAddress)
        ensures
            r == (SocketAddress::V4 { ip: ipv4_bits(a, b, c, d) as u32, port }),
    {
        let ip: u32 = a as u32 * 0x1000000 + b as u32 * 0x10000 + c as u32 * 0x100 + d as u32;
        SocketAddress::V4 { ip, port }
    }

    pub open spec fn spec_port(self) -> u16 {
        match self {
            SocketAddress::V4 { port, .. } => port,
            SocketAddress::V6 { port, .. } => port,
        }
    }

    /// The port of the endpoint.
    pub fn port(&self) -> (r: u16)
        ensures
            r == self.spec_port(),
    {
        match self {
            SocketAddress::V4 { port, .. } => *port,
            SocketAddress::V6 { port, .. } => *port,
        }
    }

    /// Whether the endpoint is an IPv4 one.
    pub fn is_ipv4(&self) -> (r: bool)
        ensures
            r == (*self is V4),
    {
        match self {
            SocketAddress::V4 { .. } => true,
            SocketAddress::V6 { .. } => false,
        }
    }

    pub open spec fn spec_family(self) -> Family {
        if self is V4 {
            Family::Ipv4
        } else {
            Family::Ipv6
        }
    }

    /// The family a socket bound to this endpoint must be created in.
    pub fn family(&self) -> (r: Family)
        ensures
            r == self.spec_family(),
    {
        if self.is_ipv4() {
            Family::Ipv4
        } else {
            Family::Ipv6
        }
    }
}

} // verus!
