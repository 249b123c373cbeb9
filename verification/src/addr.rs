//! Network addresses held as plain numeric fields, so that contracts can
//! speak about their parts directly.

use vstd::prelude::*;

verus! {

/// An IP address, either four IPv4 octets or eight IPv6 groups.
#[derive(Clone, Copy, Debug, PartialEq, Eq, Structural)]
pub enum IpAddress {
    V4(u8, u8, u8, u8),
    V6(u16, u16, u16, u16, u16, u16, u16, u16),
}

/// A socket address: an IP address together with a port.
#[derive(Clone, Copy, Debug, PartialEq, Eq, Structural)]
pub struct SocketAddress {
    pub ip: IpAddress,
    pub port: u16,
}

impl SocketAddress {
    pub fn new(ip: IpAddress, port: u16) -> (a: SocketAddress)
        ensures
            a.ip == ip,
            a.port == port,
    {
        SocketAddress { ip, port }
    }
}

} // verus!
