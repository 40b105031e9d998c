//! # Wi-Fi Direct Peer Connection
//!
//! Joining a peer's hotspot and keeping track of the P2P link. Scanning
//! and joining need platform APIs; this module holds the link's state.

use vstd::prelude::*;

use crate::network::addr::IpAddress;

verus! {

/// A Wi-Fi Direct peer.
#[derive(Debug)]
pub struct WifiDirectPeer {
    /// The peer's device name.
    pub device_name: String,
    /// The peer's SSID (when it hosts a hotspot).
    pub ssid: String,
    /// Signal strength (RSSI).
    pub signal_strength: i32,
    /// Whether the peer is the group owner (hotspot host).
    pub is_group_owner: bool,
    /// IP address once connected.
    pub ip_address: Option<IpAddress>,
}

impl WifiDirectPeer {
    /// A field-by-field copy.
    pub fn duplicate(&self) -> (r: Self)
        ensures
            r == *self,
    {
        WifiDirectPeer {
            device_name: self.device_name.clone(),
            ssid: self.ssid.clone(),
            signal_strength: self.signal_strength,
            is_group_owner: self.is_group_owner,
            ip_address: self.ip_address,
        }
    }
}

/// Status of the Wi-Fi Direct peer connection.
#[derive(Debug, PartialEq, Eq)]
pub enum PeerConnectionStatus {
    Disconnected,
    Scanning,
    Connecting,
    Connected,
    Error(String),
}

/// Tracks the Wi-Fi Direct link to a peer.
pub struct PeerConnectionManager {
    status: PeerConnectionStatus,
    connected_peer: Option<WifiDirectPeer>,
    discovered_peers: Vec<WifiDirectPeer>,
}

impl PeerConnectionManager {
    /// The connection status.
    pub closed spec fn status_spec(&self) -> PeerConnectionStatus {
        self.status
    }

    /// The connected peer, if any.
    pub closed spec fn peer_spec(&self) -> Option<WifiDirectPeer> {
        self.connected_peer
    }

    /// The peers found by scanning.
    pub closed spec fn discovered(&self) -> Seq<WifiDirectPeer> {
        self.discovered_peers@
    }

    /// Disconnected, with no peer known.
    pub fn new() -> (m: Self)
        ensures
            m.status_spec() == PeerConnectionStatus::Disconnected,
            m.peer_spec() is None,
            m.discovered() == Seq::<WifiDirectPeer>::empty(),
    {
        PeerConnectionManager {
            status: PeerConnectionStatus::Disconnected,
            connected_peer: None,
            discovered_peers: Vec::new(),
        }
    }

    /// Scan for nearby peers: reports the peers discovered so far and
    /// leaves the link disconnected.
    pub fn scan(&mut self) -> (peers: Vec<WifiDirectPeer>)
        ensures
            peers@ == old(self).discovered(),
            final(self).discovered() == old(self).discovered(),
            final(self).peer_spec() == old(self).peer_spec(),
            final(self).status_spec() == PeerConnectionStatus::Disconnected,
    {
        self.status = PeerConnectionStatus::Scanning;
        let mut peers: Vec<WifiDirectPeer> = Vec::new();
        let mut i: usize = 0;
        while i < self.discovered_peers.len()
            invariant
                i <= self.discovered_peers@.len(),
                peers@ == self.discovered_peers@.take(i as int),
            decreases self.discovered_peers@.len() - i,
        {
            peers.push(self.discovered_peers[i].duplicate());
            assert(peers@ =~= self.discovered_peers@.take(i + 1));
            i = i + 1;
        }
        assert(self.discovered_peers@.take(i as int) =~= self.discovered_peers@);
        self.status = PeerConnectionStatus::Disconnected;
        peers
    }

    /// Join a peer's hotspot: the link becomes connected.
    pub fn connect(&mut self, ssid: &str, password: &str)
        ensures
            final(self).status_spec() == PeerConnectionStatus::Connected,
            final(self).peer_spec() == old(self).peer_spec(),
            final(self).discovered() == old(self).discovered(),
    {
        self.status = PeerConnectionStatus::Connecting;
        self.status = PeerConnectionStatus::Connected;
    }

    /// Leave the peer: no peer, disconnected.
    pub fn disconnect(&mut self)
        ensures
            final(self).status_spec() == PeerConnectionStatus::Disconnected,
            final(self).peer_spec() is None,
            final(self).discovered() == old(self).discovered(),
    {
        self.connected_peer = None;
        self.status = PeerConnectionStatus::Disconnected;
    }

    /// The connection status.
    pub fn status(&self) -> (s: &PeerConnectionStatus)
        ensures
            *s == self.status_spec(),
    {
        &self.status
    }

    /// The connected peer, if any.
    pub fn connected_peer(&self) -> (p: Option<&WifiDirectPeer>)
        ensures
            match p {
                Some(q) => self.peer_spec() == Some(*q),
                None => self.peer_spec() is None,
            },
    {
        match &self.connected_peer {
            Some(q) => Some(q),
            None => None,
        }
    }
}

} // verus!
