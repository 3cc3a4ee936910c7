//! Network addresses as plain values.

use vstd::prelude::*;

verus! {

/// An IP address, held as the integer that its bytes denote in network
/// order.
#[derive(Debug, Clone, Copy, PartialEq, Eq, Hash, Structural)]
pub enum IpAddress {
    V4(u32),
    V6(u128),
}

impl IpAddress {
    pub open spec fn is_v4(self) -> bool {
        self is V4
    }

    /// The address that listens on every interface.
    pub fn unspecified() -> (ip: IpAddress)
        ensures
            ip == IpAddress::V4(0),
    {
        IpAddress::V4(0)
    }
}

/// An IP address with a port.
#[derive(Debug, Clone, Copy, PartialEq, Eq, Hash, Structural)]
pub struct SocketAddress {
    pub ip: IpAddress,
    pub port: u16,
}

impl SocketAddress {
    pub fn new(ip: IpAddress, port: u16) -> (addr: SocketAddress)
        ensures
            addr == (SocketAddress { ip, port }),
    {
        SocketAddress { ip, port }
    }
}

} // verus!
