//! Network addresses as plain values.

use vstd::prelude::*;

verus! {

/// An IP address: IPv4 as its 32-bit value, IPv6 as its 128-bit value
/// (both in network order, most significant octet first).
#[derive(Debug, Clone, Copy, PartialEq, Eq, Structural)]
pub enum IpAddress {
    V4(u32),
    V6(u128),
}

/// A socket address: IP address and port.
#[derive(Debug, Clone, Copy, PartialEq, Eq, Structural)]
pub struct EndpointAddr {
    pub ip: IpAddress,
    pub port: u16,
}

/// Loopback addresses: 127.0.0.0/8 for IPv4 and ::1 for IPv6.
pub open spec fn is_loopback_spec(ip: IpAddress) -> bool {
    match ip {
        IpAddress::V4(v) => v / 16777216 == 127,
        IpAddress::V6(v) => v == 1,
    }
}

impl IpAddress {
    /// Whether this is a loopback address.
    pub fn is_loopback(&self) -> (b: bool)
        ensures
            b == is_loopback_spec(*self),
    {
        match self {
            IpAddress::V4(v) => *v / 16777216 == 127,
            IpAddress::V6(v) => *v == 1,
        }
    }

    /// 127.0.0.1, the address used when no local address can be found.
    pub fn localhost_v4() -> (ip: Self)
        ensures
            ip == IpAddress::V4(0x7f00_0001),
    {
        IpAddress::V4(0x7f00_0001)
    }
}

} // verus!
