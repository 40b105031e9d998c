//! Wi-Fi Direct: a hotspot of our own, or a peer's hotspot to join, for
//! transfers without a router.

pub mod hotspot;
pub mod peer_connection;
