//! # FastShare
//!
//! Peer-to-peer file transfer engine: chunk planning, stream scheduling,
//! resumable transfer state, capability negotiation, distributed relay
//! planning, pairing and transfer authorization.
//!
//! Every function in this crate is verified with Verus. Calls into outside
//! crates (compression, hashing, identifiers, clocks, concurrent maps) go
//! through the small trusted items in [`external`] and the compression
//! modules, each of which documents what it assumes of the outside code.

pub mod batch;
pub mod compression;
pub mod distributed;
pub mod external;
pub mod history;
pub mod network;
pub mod optimizer;
pub mod qr;
pub mod security;
pub mod settings;
pub mod storage;
pub mod text;
pub mod transfer;
pub mod ui;
pub mod wifi_direct;

pub use settings::TransferSettings;
