//! Networking logic: addresses, broadcast addressing, capability
//! handshake, stream framing, device discovery helpers and the decisions
//! taken while serving and opening connections.

pub mod addr;
pub mod broadcast;
pub mod discovery;
pub mod handshake;
pub mod protocol;
pub mod session;
