//! # UDP Broadcast Engine
//!
//! LAN-wide discovery announcements: packets go to the broadcast address
//! 255.255.255.255 on the discovery port, and are listened for on every
//! local address on that port. The sockets belong to the application.

use vstd::prelude::*;

use crate::network::addr::{EndpointAddr, IpAddress};

verus! {

/// 255.255.255.255.
pub const BROADCAST_IPV4: u32 = 0xffff_ffff;

/// Where announcements of one port are sent and heard.
pub struct BroadcastEngine {
    port: u16,
}

impl BroadcastEngine {
    /// The port announcements use.
    pub closed spec fn port_spec(&self) -> u16 {
        self.port
    }

    /// An engine for `port`.
    pub fn new(port: u16) -> (e: Self)
        ensures
            e.port_spec() == port,
    {
        BroadcastEngine { port }
    }

    /// The port announcements use.
    pub fn port(&self) -> (p: u16)
        ensures
            p == self.port_spec(),
    {
        self.port
    }

    /// The destination of a broadcast: 255.255.255.255 on the port.
    pub fn broadcast_addr(&self) -> (a: EndpointAddr)
        ensures
            a == (EndpointAddr { ip: IpAddress::V4(BROADCAST_IPV4), port: self.port_spec() }),
    {
        EndpointAddr { ip: IpAddress::V4(BROADCAST_IPV4), port: self.port }
    }

    /// The address a listener binds: every local IPv4 address, on the port.
    pub fn listen_addr(&self) -> (a: EndpointAddr)
        ensures
            a == (EndpointAddr { ip: IpAddress::V4(0), port: self.port_spec() }),
    {
        EndpointAddr { ip: IpAddress::V4(0), port: self.port }
    }
}

} // verus!
