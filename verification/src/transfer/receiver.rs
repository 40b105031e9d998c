//! # Multi-Stream Transfer Receiver
//!
//! What a receiver does with a chunk once its bytes are in: decompress it
//! when flagged (LZ4 first, ZSTD as fallback), verify its SHA-256 against
//! the checksum in its metadata, and count it towards the file's
//! completion. Reading streams and writing chunk files is left to the
//! application.

use vstd::prelude::*;

use crate::compression::{lz4, zstd};
use crate::external::digest::{checksum_hex, hex_lower, sha256_of};
use crate::network::protocol::{ACK, NAK};
use crate::transfer::chunker::ChunkMeta;

verus! {

/// Why a received chunk was rejected.
#[derive(Debug, PartialEq, Eq, Structural)]
pub enum ChunkError {
    /// The payload was flagged compressed but neither LZ4 nor ZSTD could
    /// decode it.
    Decompress,
    /// The data does not match the checksum in the metadata.
    ChecksumMismatch,
}

/// The bytes a flagged-compressed payload decodes to: the LZ4 result when
/// LZ4 decodes it within `max` bytes, else the ZSTD result.
pub open spec fn decompressed_payload(data: Seq<u8>, max: usize) -> Option<Seq<u8>> {
    match lz4::lz4_decoded(data) {
        Some(d) => if d.len() <= max {
            Some(d)
        } else {
            zstd::zstd_decoded(data)
        },
        None => zstd::zstd_decoded(data),
    }
}

/// Whether `data` passes the checksum carried in the metadata: an empty
/// checksum passes everything.
pub open spec fn passes_checksum(checksum: Seq<char>, data: Seq<u8>) -> bool {
    checksum.len() == 0 || hex_lower(sha256_of(data)) == checksum
}

/// Decode and verify a received chunk payload.
///
/// `meta.size` bounds the LZ4 output. Returns the chunk data, or why the
/// chunk is rejected (the receiver then answers NAK).
pub fn decode_chunk_payload(meta: &ChunkMeta, is_compressed: bool, data: Vec<u8>) -> (r: Result<Vec<u8>, ChunkError>)
    ensures
        ({
            let decoded = if is_compressed {
                decompressed_payload(data@, meta.size as usize)
            } else {
                Some(data@)
            };
            match decoded {
                None => r == Err::<Vec<u8>, ChunkError>(ChunkError::Decompress),
                Some(d) => if passes_checksum(meta.checksum@, d) {
                    r matches Ok(v) && v@ == d
                } else {
                    r == Err::<Vec<u8>, ChunkError>(ChunkError::ChecksumMismatch)
                },
            }
        }),
        // What the sender compressed with LZ4 arrives as the original bytes.
        forall|orig: Seq<u8>|
            is_compressed && data@ == #[trigger] lz4::lz4_with_size(orig) && orig.len() <= meta.size as usize
                && orig.len() <= u32::MAX && passes_checksum(meta.checksum@, orig) ==> (r matches Ok(v)
                && v@ == orig),
{
    let final_data = if is_compressed {
        match lz4::decompress(data.as_slice(), meta.size as usize) {
            Ok(d) => d,
            Err(_) => match zstd::decompress(data.as_slice()) {
                Ok(d) => d,
                Err(_) => {
                    return Err(ChunkError::Decompress);
                },
            },
        }
    } else {
        data
    };
    let computed = checksum_hex(final_data.as_slice());
    if !meta.checksum.as_str().is_empty() && computed != meta.checksum {
        return Err(ChunkError::ChecksumMismatch);
    }
    Ok(final_data)
}

/// The byte the receiver answers a chunk with.
pub fn reply_for<T, E>(result: &Result<T, E>) -> (b: u8)
    ensures
        result is Ok ==> b == ACK,
        result is Err ==> b == NAK,
{
    match result {
        Ok(_) => ACK,
        Err(_) => NAK,
    }
}

/// Count of chunks received for one incoming file.
pub struct ReceptionProgress {
    chunks_received: u64,
}

impl ReceptionProgress {
    /// Number of chunks counted so far.
    pub closed spec fn count(&self) -> u64 {
        self.chunks_received
    }

    /// Nothing received yet.
    pub fn new() -> (p: Self)
        ensures
            p.count() == 0,
    {
        ReceptionProgress { chunks_received: 0 }
    }

    /// Chunks counted so far.
    pub fn chunks_received(&self) -> (n: u64)
        ensures
            n == self.count(),
    {
        self.chunks_received
    }

    /// Count one more chunk; returns whether the file now has at least
    /// `total_chunks` chunks (time to reassemble).
    pub fn record_chunk(&mut self, total_chunks: u64) -> (complete: bool)
        requires
            old(self).count() < u64::MAX,
        ensures
            final(self).count() == old(self).count() + 1,
            complete == (final(self).count() >= total_chunks),
    {
        self.chunks_received = self.chunks_received + 1;
        self.chunks_received >= total_chunks
    }
}

/// Bytes shown as received for an incoming file: a full chunk per received
/// chunk, capped at the file size.
pub fn received_bytes(received_chunks: u64, chunk_size: u64, total_size: u64) -> (b: u64)
    requires
        received_chunks * chunk_size <= u64::MAX,
    ensures
        b == if received_chunks * chunk_size <= total_size {
            (received_chunks * chunk_size) as u64
        } else {
            total_size
        },
{
    let bytes = received_chunks * chunk_size;
    if bytes <= total_size {
        bytes
    } else {
        total_size
    }
}

} // verus!
