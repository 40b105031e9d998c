//! # File Chunker
//!
//! Splits a file into fixed-size chunks for parallel transfer across several
//! QUIC streams. Each chunk carries metadata (index, offset, size, checksum)
//! so the receiver can place it and verify it.
//!
//! Chunk sizes adapt to the link: 512 KB below 100 Mbps, 1 MB up to 1 Gbps,
//! 2 MB up to 5 Gbps and 4 MB above.

use vstd::prelude::*;

use crate::external::digest::{
    hex_lower, sha256_of, sha256_stream_fed, sha256_stream_finish, sha256_stream_new,
    sha256_stream_update, Sha256Stream,
};
use crate::external::ids::{is_uuid_text, new_uuid_v4_string};
use crate::text::lower_hex;

verus! {

/// Default chunk size: 1 MB.
pub const DEFAULT_CHUNK_SIZE: u64 = 1048576;

/// Fast network chunk size: 2 MB (1-5 Gbps).
pub const FAST_CHUNK_SIZE: u64 = 2097152;

/// Ultra-fast network chunk size: 4 MB (above 5 Gbps).
pub const ULTRA_FAST_CHUNK_SIZE: u64 = 4194304;

/// Slow network chunk size: 512 KB (below 100 Mbps).
pub const SLOW_CHUNK_SIZE: u64 = 524288;

/// Network speed classes used to pick a chunk size.
#[derive(Debug, Clone, Copy, PartialEq, Eq, Structural)]
pub enum NetworkSpeed {
    /// Below 100 Mbps.
    Slow,
    /// 100 - 999 Mbps.
    Normal,
    /// 1 - 5 Gbps.
    Fast,
    /// Above 5 Gbps.
    UltraFast,
}

/// Metadata about one chunk of a file.
#[derive(Debug, Clone)]
pub struct ChunkMeta {
    /// Unique file transfer identifier.
    pub file_id: String,
    /// Original file name.
    pub file_name: String,
    /// Total file size in bytes.
    pub total_file_size: u64,
    /// Index of this chunk (0-based).
    pub chunk_index: u64,
    /// Total number of chunks in the file.
    pub total_chunks: u64,
    /// Byte offset of this chunk within the file.
    pub offset: u64,
    /// Size of this chunk in bytes.
    pub size: u64,
    /// Lowercase hex SHA-256 of the chunk data (empty until the chunk is read).
    pub checksum: String,
}

impl ChunkMeta {
    /// A field-by-field copy.
    pub fn duplicate(&self) -> (r: Self)
        ensures
            r == *self,
    {
        ChunkMeta {
            file_id: self.file_id.clone(),
            file_name: self.file_name.clone(),
            total_file_size: self.total_file_size,
            chunk_index: self.chunk_index,
            total_chunks: self.total_chunks,
            offset: self.offset,
            size: self.size,
            checksum: self.checksum.clone(),
        }
    }
}

/// The chunk layout of one file of a transfer batch.
#[derive(Debug, Clone)]
pub struct FileChunkPlan {
    /// Unique transfer identifier.
    pub file_id: String,
    /// Original file name.
    pub file_name: String,
    /// Total file size.
    pub total_size: u64,
    /// Total number of files in this transfer session.
    pub total_files: u32,
    /// Total size of all files in this batch.
    pub total_batch_size: u64,
    /// Bytes sent in previous files of this batch.
    pub batch_bytes_already_sent: u64,
    /// 1-based index of this file in the batch.
    pub current_file_index: u32,
    /// Chunk size used for splitting.
    pub chunk_size: u64,
    /// Total number of chunks.
    pub total_chunks: u64,
    /// Metadata for each chunk.
    pub chunks: Vec<ChunkMeta>,
}

/// The file chunker: splits files into chunks of one size.
pub struct FileChunker {
    chunk_size: u64,
}

/// Number of chunks of size `chunk_size` needed to cover `total` bytes.
pub open spec fn chunk_count(total: int, chunk_size: int) -> int {
    (total + chunk_size - 1) / chunk_size
}

/// The chunk size chosen for a network speed class.
pub open spec fn chunk_size_for(speed: NetworkSpeed) -> u64 {
    match speed {
        NetworkSpeed::Slow => SLOW_CHUNK_SIZE,
        NetworkSpeed::Normal => DEFAULT_CHUNK_SIZE,
        NetworkSpeed::Fast => FAST_CHUNK_SIZE,
        NetworkSpeed::UltraFast => ULTRA_FAST_CHUNK_SIZE,
    }
}

/// Chunk `i` of a file: starts at `i * chunk_size` and is `chunk_size` long,
/// except the last, which holds what is left.
pub open spec fn chunk_is(
    c: ChunkMeta,
    file_id: String,
    file_name: String,
    total: u64,
    chunk_size: u64,
    total_chunks: u64,
    i: int,
) -> bool {
    &&& c.file_id == file_id
    &&& c.file_name == file_name
    &&& c.total_file_size == total
    &&& c.chunk_index == i
    &&& c.total_chunks == total_chunks
    &&& c.offset == i * chunk_size
    &&& c.size == if chunk_size <= total - i * chunk_size {
        chunk_size as int
    } else {
        total - i * chunk_size
    }
    &&& c.checksum@ == Seq::<char>::empty()
}

/// The chunk list of a plan: one entry per chunk index, in order.
pub open spec fn chunks_are(
    chunks: Seq<ChunkMeta>,
    file_id: String,
    file_name: String,
    total: u64,
    chunk_size: u64,
) -> bool {
    let n = chunk_count(total as int, chunk_size as int);
    &&& chunks.len() == n
    &&& forall|i: int|
        0 <= i < n ==> chunk_is(
            #[trigger] chunks[i],
            file_id,
            file_name,
            total,
            chunk_size,
            n as u64,
            i,
        )
}

impl View for FileChunker {
    type V = u64;

    /// The chunk size.
    closed spec fn view(&self) -> u64 {
        self.chunk_size
    }
}

/// `n * c` covers `total` and `(n - 1) * c` does not, where `n` is the chunk
/// count; and there are no chunks exactly when the file is empty.
pub proof fn lemma_chunk_count_bounds(total: int, c: int)
    requires
        total >= 0,
        c > 0,
    ensures
        chunk_count(total, c) >= 0,
        chunk_count(total, c) * c >= total,
        total > 0 ==> (chunk_count(total, c) - 1) * c < total,
        chunk_count(total, c) == 0 <==> total == 0,
{
    let n = chunk_count(total, c);
    assert(n * c <= total + c - 1 < n * c + c) by (nonlinear_arith)
        requires
            n == (total + c - 1) / c,
            c > 0,
            total >= 0,
    ;
    assert(n >= 0) by (nonlinear_arith)
        requires
            n == (total + c - 1) / c,
            c > 0,
            total >= 0,
    ;
    if n == 0 {
        assert(n * c == 0) by (nonlinear_arith)
            requires
                n == 0,
        ;
    }
    if total == 0 {
        assert(n == 0) by (nonlinear_arith)
            requires
                n * c <= c - 1,
                c > 0,
                n >= 0,
        ;
    }
    assert((n - 1) * c == n * c - c) by (nonlinear_arith);
}

/// Where slot `i` of a file sits: it starts inside the file, and it is
/// `c` bytes long except the last slot, which ends at the end of the file.
pub proof fn lemma_chunk_slot(total: int, c: int, i: int)
    requires
        total >= 0,
        c > 0,
        0 <= i < chunk_count(total, c),
    ensures
        i * c < total,
        (i + 1) * c == i * c + c,
        i + 1 < chunk_count(total, c) ==> c < total - i * c,
        i + 1 == chunk_count(total, c) ==> 0 < total - i * c <= c,
{
    let n = chunk_count(total, c);
    lemma_chunk_count_bounds(total, c);
    assert(i * c <= (n - 1) * c) by (nonlinear_arith)
        requires
            i <= n - 1,
            c > 0,
    ;
    assert((i + 1) * c == i * c + c) by (nonlinear_arith);
    assert(n * c == (n - 1) * c + c) by (nonlinear_arith);
    if i + 1 < n {
        assert((i + 1) * c <= (n - 1) * c) by (nonlinear_arith)
            requires
                i + 1 <= n - 1,
                c > 0,
        ;
    }
}

/// The chunks of a plan tile the file: the first starts at 0, each starts
/// where the previous one ends, each is non-empty and at most `chunk_size`
/// long, and the last ends at the end of the file.
pub proof fn lemma_chunks_tile_file(
    chunks: Seq<ChunkMeta>,
    file_id: String,
    file_name: String,
    total: u64,
    chunk_size: u64,
)
    requires
        chunk_size > 0,
        chunks_are(chunks, file_id, file_name, total, chunk_size),
    ensures
        chunks.len() > 0 ==> chunks[0].offset == 0,
        forall|i: int|
            0 <= i < chunks.len() ==> 0 < #[trigger] chunks[i].size <= chunk_size,
        forall|i: int|
            0 <= i < chunks.len() - 1 ==> #[trigger] chunks[i].offset + chunks[i].size
                == chunks[i + 1].offset,
        chunks.len() > 0 ==> chunks[chunks.len() - 1].offset + chunks[chunks.len() - 1].size
            == total,
        chunks.len() == 0 <==> total == 0,
{
    let n = chunk_count(total as int, chunk_size as int);
    lemma_chunk_count_bounds(total as int, chunk_size as int);
    assert forall|i: int| 0 <= i < chunks.len() implies 0 < #[trigger] chunks[i].size
        <= chunk_size by {
        assert(chunk_is(chunks[i], file_id, file_name, total, chunk_size, n as u64, i));
        lemma_chunk_slot(total as int, chunk_size as int, i);
    }
    assert forall|i: int| 0 <= i < chunks.len() - 1 implies #[trigger] chunks[i].offset
        + chunks[i].size == chunks[i + 1].offset by {
        assert(chunk_is(chunks[i], file_id, file_name, total, chunk_size, n as u64, i));
        assert(chunk_is(chunks[i + 1], file_id, file_name, total, chunk_size, n as u64, i + 1));
        lemma_chunk_slot(total as int, chunk_size as int, i);
    }
    if chunks.len() > 0 {
        assert(chunk_is(chunks[0], file_id, file_name, total, chunk_size, n as u64, 0));
        assert(chunk_is(chunks[n - 1], file_id, file_name, total, chunk_size, n as u64, n - 1));
        lemma_chunk_slot(total as int, chunk_size as int, n - 1);
    }
}

impl FileChunker {
    /// Create a chunker with the given chunk size.
    pub fn new(chunk_size: u64) -> (c: Self)
        ensures
            c@ == chunk_size,
    {
        FileChunker { chunk_size }
    }

    /// Create a chunker whose chunk size suits the network speed.
    pub fn adaptive(speed: NetworkSpeed) -> (c: Self)
        ensures
            c@ == chunk_size_for(speed),
    {
        let chunk_size = match speed {
            NetworkSpeed::Slow => SLOW_CHUNK_SIZE,
            NetworkSpeed::Normal => DEFAULT_CHUNK_SIZE,
            NetworkSpeed::Fast => FAST_CHUNK_SIZE,
            NetworkSpeed::UltraFast => ULTRA_FAST_CHUNK_SIZE,
        };
        FileChunker { chunk_size }
    }

    /// The chunk size in use.
    pub fn chunk_size(&self) -> (s: u64)
        ensures
            s == self@,
    {
        self.chunk_size
    }

    /// Lay out the chunks of a file of `total_size` bytes under the given
    /// transfer identifier, without reading the file. Checksums are left
    /// empty; they are computed as each chunk is read.
    pub fn plan_with_id(
        &self,
        file_id: String,
        file_name: String,
        total_size: u64,
        total_files: u32,
        current_file_index: u32,
        total_batch_size: u64,
        batch_bytes_already_sent: u64,
    ) -> (p: FileChunkPlan)
        requires
            self@ > 0,
            total_size + self@ - 1 <= u64::MAX,
        ensures
            p.file_id == file_id,
            p.file_name == file_name,
            p.total_size == total_size,
            p.total_files == total_files,
            p.current_file_index == current_file_index,
            p.total_batch_size == total_batch_size,
            p.batch_bytes_already_sent == batch_bytes_already_sent,
            p.chunk_size == self@,
            p.total_chunks == chunk_count(total_size as int, self@ as int),
            chunks_are(p.chunks@, file_id, file_name, total_size, self@),
    {
        let cs = self.chunk_size;
        let total_chunks: u64 = (total_size + (cs - 1)) / cs;
        proof {
            lemma_chunk_count_bounds(total_size as int, cs as int);
        }
        let mut chunks: Vec<ChunkMeta> = Vec::new();
        let mut i: u64 = 0;
        while i < total_chunks
            invariant
                cs == self@,
                cs > 0,
                total_chunks == chunk_count(total_size as int, cs as int),
                total_chunks * cs >= total_size,
                total_size > 0 ==> (total_chunks - 1) * cs < total_size,
                total_chunks == 0 <==> total_size == 0,
                i <= total_chunks,
                chunks@.len() == i,
                forall|j: int|
                    0 <= j < i ==> chunk_is(
                        #[trigger] chunks@[j],
                        file_id,
                        file_name,
                        total_size,
                        cs,
                        total_chunks,
                        j,
                    ),
            decreases total_chunks - i,
        {
            assert(i * cs <= (total_chunks - 1) * cs) by (nonlinear_arith)
                requires
                    i <= total_chunks - 1,
                    cs > 0,
            ;
            let offset = i * cs;
            let remaining = total_size - offset;
            let size = if cs <= remaining {
                cs
            } else {
                remaining
            };
            chunks.push(
                ChunkMeta {
                    file_id: file_id.clone(),
                    file_name: file_name.clone(),
                    total_file_size: total_size,
                    chunk_index: i,
                    total_chunks,
                    offset,
                    size,
                    checksum: String::new(),
                },
            );
            i = i + 1;
        }
        FileChunkPlan {
            file_id,
            file_name,
            total_size,
            total_files,
            total_batch_size,
            chunk_size: cs,
            total_chunks,
            chunks,
            batch_bytes_already_sent,
            current_file_index,
        }
    }

    /// Lay out the chunks of a file of `total_size` bytes named `file_name`
    /// under a fresh random transfer identifier (a UUID v4).
    ///
    /// Reading the file's size and name is left to the caller.
    pub fn plan_file(
        &self,
        file_name: String,
        total_size: u64,
        total_files: u32,
        current_file_index: u32,
        total_batch_size: u64,
        batch_bytes_already_sent: u64,
    ) -> (p: FileChunkPlan)
        requires
            self@ > 0,
            total_size + self@ - 1 <= u64::MAX,
        ensures
            is_uuid_text(p.file_id@),
            p.file_name == file_name,
            p.total_size == total_size,
            p.total_files == total_files,
            p.current_file_index == current_file_index,
            p.total_batch_size == total_batch_size,
            p.batch_bytes_already_sent == batch_bytes_already_sent,
            p.chunk_size == self@,
            p.total_chunks == chunk_count(total_size as int, self@ as int),
            chunks_are(p.chunks@, p.file_id, file_name, total_size, self@),
    {
        let file_id = new_uuid_v4_string();
        self.plan_with_id(
            file_id,
            file_name,
            total_size,
            total_files,
            current_file_index,
            total_batch_size,
            batch_bytes_already_sent,
        )
    }
}

/// Classify a link speed in Mbps: below 100 slow, up to 999 normal, 1 to
/// 5 Gbps fast, above 5 Gbps ultra-fast.
pub fn classify_network_speed(mbps: u64) -> (s: NetworkSpeed)
    ensures
        mbps < 100 ==> s == NetworkSpeed::Slow,
        100 <= mbps < 1000 ==> s == NetworkSpeed::Normal,
        1000 <= mbps <= 5000 ==> s == NetworkSpeed::Fast,
        5000 < mbps ==> s == NetworkSpeed::UltraFast,
{
    if mbps < 100 {
        NetworkSpeed::Slow
    } else if mbps < 1000 {
        NetworkSpeed::Normal
    } else if mbps <= 5000 {
        NetworkSpeed::Fast
    } else {
        NetworkSpeed::UltraFast
    }
}

/// Read block size for hashing a whole file: 1 MB.
pub const HASH_BLOCK_SIZE: usize = 1048576;

/// The SHA-256 of a file, computed over its blocks as they are read.
pub struct FileHasher {
    stream: Sha256Stream,
}

impl FileHasher {
    /// The bytes hashed so far, in order.
    pub closed spec fn hashed(&self) -> Seq<u8> {
        sha256_stream_fed(self.stream)
    }

    /// Nothing hashed yet.
    pub fn new() -> (h: Self)
        ensures
            h.hashed() == Seq::<u8>::empty(),
    {
        FileHasher { stream: sha256_stream_new() }
    }

    /// Hash the next block read from the file.
    pub fn update(&mut self, block: &[u8])
        ensures
            final(self).hashed() == old(self).hashed() + block@,
    {
        sha256_stream_update(&mut self.stream, block);
    }

    /// The file's hash: lowercase hex of the SHA-256 of all the bytes
    /// hashed, in order.
    pub fn finish(self) -> (s: String)
        ensures
            s@ == hex_lower(sha256_of(self.hashed())),
    {
        let digest = sha256_stream_finish(self.stream);
        lower_hex(digest.as_slice())
    }
}

} // verus!
