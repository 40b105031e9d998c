//! Distributed transfer: relay peers and chunk routing.

pub mod chunk_router;
pub mod peer_manager;
