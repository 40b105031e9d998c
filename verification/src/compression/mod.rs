//! Chunk compression: LZ4 for fast links, ZSTD for slow ones.

pub mod lz4;
pub mod zstd;

use vstd::prelude::*;

verus! {

/// Why a compression or decompression call failed.
#[derive(Debug, PartialEq, Eq, Structural)]
pub enum CompressionError {
    /// The LZ4 stream could not be decoded.
    Lz4Decompress,
    /// The LZ4 stream decoded to more bytes than the caller allows.
    Lz4SizeExceeded { size: usize, max: usize },
    /// The ZSTD encoder reported an error.
    ZstdCompress,
    /// The ZSTD stream could not be decoded.
    ZstdDecompress,
}

} // verus!
