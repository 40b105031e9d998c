//! # Parallel Stream Transfer Sender
//!
//! Decides what a sender puts on the wire: which chunks still need sending
//! after a resume, how many parallel streams to use, and whether a chunk
//! travels compressed. Opening streams and writing bytes is left to the
//! application.

use vstd::prelude::*;

use crate::compression::{lz4, zstd, CompressionError};
use crate::transfer::chunker::ChunkMeta;

verus! {

/// Default number of parallel streams for sending.
pub const DEFAULT_PARALLEL_STREAMS: usize = 8;

/// Maximum number of parallel streams.
pub const MAX_PARALLEL_STREAMS: usize = 32;

/// The compression a sender applies to chunks.
#[derive(Debug, Clone, Copy, PartialEq, Eq, Structural)]
pub enum CompressionAlgo {
    Uncompressed,
    Lz4,
    Zstd,
}

/// The algorithm a compression name selects: `"lz4"`, `"zstd"`, anything
/// else (or no name) means none.
pub open spec fn algo_named(name: Option<Seq<char>>) -> CompressionAlgo {
    match name {
        Some(n) => if n == "lz4"@ {
            CompressionAlgo::Lz4
        } else if n == "zstd"@ {
            CompressionAlgo::Zstd
        } else {
            CompressionAlgo::Uncompressed
        },
        None => CompressionAlgo::Uncompressed,
    }
}

/// The parallel file transfer sender's settings.
#[derive(Clone)]
pub struct TransferSender {
    parallel_streams: usize,
    compression: Option<String>,
}

/// The chunks of a plan still to send: those whose index is not among the
/// chunks the receiver already has, in plan order.
pub open spec fn unsent_chunks(plan: Seq<ChunkMeta>, received: Set<u64>) -> Seq<ChunkMeta> {
    plan.filter(|c: ChunkMeta| !received.contains(c.chunk_index))
}

impl TransferSender {
    /// Number of parallel streams in use.
    pub closed spec fn streams(&self) -> usize {
        self.parallel_streams
    }

    /// The compression name in use, as characters.
    pub closed spec fn compression_name(&self) -> Option<Seq<char>> {
        match self.compression {
            Some(c) => Some(c@),
            None => None,
        }
    }

    /// A sender with 8 streams and LZ4 compression.
    pub fn new() -> (s: Self)
        ensures
            s.streams() == DEFAULT_PARALLEL_STREAMS,
            s.compression_name() == Some("lz4"@),
    {
        TransferSender {
            parallel_streams: DEFAULT_PARALLEL_STREAMS,
            compression: Some(String::from_str("lz4")),
        }
    }

    /// A sender with the given stream count (at most 32) and LZ4
    /// compression.
    pub fn with_streams(parallel_streams: usize) -> (s: Self)
        ensures
            s.streams() == if parallel_streams <= MAX_PARALLEL_STREAMS {
                parallel_streams
            } else {
                MAX_PARALLEL_STREAMS
            },
            s.compression_name() == Some("lz4"@),
    {
        let streams = if parallel_streams <= MAX_PARALLEL_STREAMS {
            parallel_streams
        } else {
            MAX_PARALLEL_STREAMS
        };
        TransferSender { parallel_streams: streams, compression: Some(String::from_str("lz4")) }
    }

    /// Set the compression by name (`None`, `"lz4"` or `"zstd"`).
    pub fn set_compression(&mut self, compression: Option<String>)
        ensures
            final(self).compression_name() == match compression {
                Some(c) => Some(c@),
                None => None::<Seq<char>>,
            },
            final(self).streams() == old(self).streams(),
    {
        self.compression = compression;
    }

    /// Number of parallel streams.
    pub fn parallel_streams(&self) -> (n: usize)
        ensures
            n == self.streams(),
    {
        self.parallel_streams
    }

    /// The algorithm the compression name selects.
    pub fn compression_algo(&self) -> (a: CompressionAlgo)
        ensures
            a == algo_named(self.compression_name()),
    {
        match &self.compression {
            Some(name) => {
                let lz4_name = String::from_str("lz4");
                let zstd_name = String::from_str("zstd");
                if *name == lz4_name {
                    CompressionAlgo::Lz4
                } else if *name == zstd_name {
                    CompressionAlgo::Zstd
                } else {
                    CompressionAlgo::Uncompressed
                }
            },
            None => CompressionAlgo::Uncompressed,
        }
    }
}

/// The chunks of a plan still to send, given the chunks the receiver
/// already holds (from a resume state), in plan order.
pub fn chunks_to_send(plan_chunks: &Vec<ChunkMeta>, received: Option<&std::collections::HashSet<u64>>) -> (r: Vec<ChunkMeta>)
    ensures
        match received {
            Some(set) => r@ == unsent_chunks(plan_chunks@, set@),
            None => r@ == plan_chunks@,
        },
{
    let mut out: Vec<ChunkMeta> = Vec::new();
    let mut i: usize = 0;
    while i < plan_chunks.len()
        invariant
            i <= plan_chunks@.len(),
            match received {
                Some(set) => out@ == unsent_chunks(plan_chunks@.take(i as int), set@),
                None => out@ == plan_chunks@.take(i as int),
            },
        decreases plan_chunks@.len() - i,
    {
        let c = &plan_chunks[i];
        proof {
            assert(plan_chunks@.take(i + 1).drop_last() =~= plan_chunks@.take(i as int));
            assert(plan_chunks@.take(i + 1).last() == plan_chunks@[i as int]);
            reveal(Seq::filter);
        }
        match received {
            Some(set) => {
                if !set.contains(&c.chunk_index) {
                    out.push(c.duplicate());
                }
            },
            None => {
                out.push(c.duplicate());
                assert(out@ =~= plan_chunks@.take(i + 1));
            },
        }
        i = i + 1;
    }
    assert(plan_chunks@.take(plan_chunks@.len() as int) =~= plan_chunks@);
    out
}

/// What a sender puts on the wire for a chunk: the data compressed with
/// the chosen algorithm when that makes it strictly smaller, else the data
/// itself. The flag tells whether the payload is compressed.
pub fn chunk_payload(data: Vec<u8>, algo: CompressionAlgo) -> (r: Result<(Vec<u8>, bool), CompressionError>)
    ensures
        match algo {
            CompressionAlgo::Uncompressed => r matches Ok((p, false)) && p@ == data@,
            CompressionAlgo::Lz4 => {
                let c = lz4::lz4_with_size(data@);
                if c.len() < data@.len() {
                    r matches Ok((p, true)) && p@ == c
                } else {
                    r matches Ok((p, false)) && p@ == data@
                }
            },
            CompressionAlgo::Zstd => {
                let c = zstd::zstd_frame(data@, zstd::DEFAULT_LEVEL);
                if c.len() < data@.len() {
                    r matches Ok((p, true)) && p@ == c
                } else {
                    r matches Ok((p, false)) && p@ == data@
                }
            },
        },
{
    match algo {
        CompressionAlgo::Lz4 => {
            let compressed = match lz4::compress(data.as_slice()) {
                Ok(c) => c,
                Err(e) => {
                    return Err(e);
                },
            };
            if compressed.len() < data.len() {
                Ok((compressed, true))
            } else {
                Ok((data, false))
            }
        },
        CompressionAlgo::Zstd => {
            let compressed = match zstd::compress(data.as_slice()) {
                Ok(c) => c,
                Err(e) => {
                    return Err(e);
                },
            };
            if compressed.len() < data.len() {
                Ok((compressed, true))
            } else {
                Ok((data, false))
            }
        },
        CompressionAlgo::Uncompressed => Ok((data, false)),
    }
}

} // verus!
