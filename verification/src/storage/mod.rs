//! Temporary chunk storage, file-system paths and the bookkeeping of
//! streaming file access.

pub mod chunk_storage;
pub mod paths;
pub mod streaming;
