//! # Stream Framing
//!
//! Every QUIC stream of a transfer starts with a type byte:
//!
//! - `0x01`: a file plan — 4-byte big-endian length, then the plan as JSON;
//! - `0x02`: a chunk — 4-byte big-endian length, the chunk metadata as JSON,
//!   one compression-flag byte, then the chunk data to the end of the stream.
//!
//! The receiver answers a chunk with `0x06` (ACK) or `0x15` (NAK). The
//! capability handshake and relay control messages use the same 4-byte
//! length prefix without a type byte.

use vstd::prelude::*;

verus! {

/// Stream type byte of a file plan.
pub const STREAM_FILE_PLAN: u8 = 0x01;

/// Stream type byte of a chunk.
pub const STREAM_CHUNK_DATA: u8 = 0x02;

/// Chunk accepted.
pub const ACK: u8 = 0x06;

/// Chunk rejected.
pub const NAK: u8 = 0x15;

/// Largest chunk metadata accepted (1 MB).
pub const MAX_CHUNK_META_LEN: usize = 1048576;

/// The four big-endian bytes of `n`.
pub open spec fn u32_be_bytes(n: u32) -> Seq<u8> {
    seq![
        (n / 16777216) as u8,
        ((n / 65536) % 256) as u8,
        ((n / 256) % 256) as u8,
        (n % 256) as u8,
    ]
}

/// The number four big-endian bytes spell.
pub open spec fn be_u32_value(b: Seq<u8>) -> int {
    b[0] * 16777216 + b[1] * 65536 + b[2] * 256 + b[3]
}

/// A payload with its length (truncated to 32 bits) in front, big-endian.
pub open spec fn length_prefixed(payload: Seq<u8>) -> Seq<u8> {
    u32_be_bytes((payload.len() % 0x1_0000_0000) as u32) + payload
}

/// Reading the prefix of a length-prefixed payload gives back its length.
pub proof fn lemma_length_prefix_roundtrip(payload: Seq<u8>)
    requires
        payload.len() <= u32::MAX,
    ensures
        length_prefixed(payload).len() == payload.len() + 4,
        be_u32_value(length_prefixed(payload).subrange(0, 4)) == payload.len(),
        length_prefixed(payload).subrange(4, payload.len() as int + 4) == payload,
{
    let n = payload.len() as u32;
    assert((n / 16777216) as u8 * 16777216 + ((n / 65536) % 256) as u8 * 65536 + ((n / 256) % 256) as u8 * 256 + (n % 256) as u8 == n) by (bit_vector);
    assert(length_prefixed(payload).subrange(4, payload.len() as int + 4) =~= payload);
}

/// The big-endian bytes of `n`.
pub fn u32_to_be(n: u32) -> (b: Vec<u8>)
    ensures
        b@ == u32_be_bytes(n),
{
    let mut b: Vec<u8> = Vec::new();
    b.push((n / 16777216) as u8);
    b.push(((n / 65536) % 256) as u8);
    b.push(((n / 256) % 256) as u8);
    b.push((n % 256) as u8);
    assert(b@ =~= u32_be_bytes(n));
    b
}

/// The number four big-endian bytes spell.
pub fn u32_from_be(b: [u8; 4]) -> (n: u32)
    ensures
        n == be_u32_value(b@),
{
    b[0] as u32 * 16777216 + b[1] as u32 * 65536 + b[2] as u32 * 256 + b[3] as u32
}

/// Append `src` to `dst`.
pub fn append_bytes(dst: &mut Vec<u8>, src: &[u8])
    ensures
        final(dst)@ == old(dst)@ + src@,
{
    let mut i: usize = 0;
    while i < src.len()
        invariant
            i <= src@.len(),
            dst@ == old(dst)@ + src@.subrange(0, i as int),
        decreases src@.len() - i,
    {
        dst.push(src[i]);
        i = i + 1;
        assert(dst@ =~= old(dst)@ + src@.subrange(0, i as int));
    }
    assert(src@.subrange(0, src@.len() as int) =~= src@);
}

/// `payload` with its length in front (the handshake and relay-control
/// framing).
pub fn frame_length_prefixed(payload: &[u8]) -> (f: Vec<u8>)
    ensures
        f@ == length_prefixed(payload@),
{
    let plen = payload.len();
    let len = plen as u32;
    let ghost plen64 = plen as u64;
    assert(len == (plen64 % 0x1_0000_0000) as u32) by (bit_vector)
        requires
            len == plen as u32,
            plen64 == plen as u64,
    ;
    let mut f = u32_to_be(len);
    append_bytes(&mut f, payload);
    f
}

/// The opening of a file-plan stream: type byte, then the length-prefixed
/// plan JSON.
pub fn frame_file_plan(plan_json: &[u8]) -> (f: Vec<u8>)
    ensures
        f@ == seq![STREAM_FILE_PLAN] + length_prefixed(plan_json@),
{
    let mut f: Vec<u8> = Vec::new();
    f.push(STREAM_FILE_PLAN);
    let body = frame_length_prefixed(plan_json);
    append_bytes(&mut f, body.as_slice());
    f
}

/// The header of a chunk stream: type byte, length-prefixed metadata JSON,
/// and the compression flag (1 when the data that follows is compressed).
pub fn frame_chunk_header(meta_json: &[u8], is_compressed: bool) -> (f: Vec<u8>)
    ensures
        f@ == seq![STREAM_CHUNK_DATA] + length_prefixed(meta_json@) + seq![
            if is_compressed {
                1u8
            } else {
                0u8
            },
        ],
{
    let mut f: Vec<u8> = Vec::new();
    f.push(STREAM_CHUNK_DATA);
    let body = frame_length_prefixed(meta_json);
    append_bytes(&mut f, body.as_slice());
    f.push(if is_compressed { 1u8 } else { 0u8 });
    f
}

/// Why a frame was rejected.
#[derive(Debug, PartialEq, Eq, Structural)]
pub enum FrameError {
    /// The announced length exceeds the limit.
    TooLarge { len: usize, max: usize },
}

/// The payload length announced by a 4-byte prefix, rejected when above
/// `max`.
pub fn checked_payload_len(prefix: [u8; 4], max: usize) -> (r: Result<usize, FrameError>)
    ensures
        be_u32_value(prefix@) <= max ==> r == Ok::<usize, FrameError>(
            be_u32_value(prefix@) as usize,
        ),
        be_u32_value(prefix@) > max ==> r == Err::<usize, FrameError>(
            FrameError::TooLarge { len: be_u32_value(prefix@) as usize, max },
        ),
{
    let len = u32_from_be(prefix) as usize;
    if len > max {
        Err(FrameError::TooLarge { len, max })
    } else {
        Ok(len)
    }
}

/// The length of a capabilities message; at most 64 KB is accepted.
pub fn handshake_payload_len(prefix: [u8; 4]) -> (r: Result<usize, FrameError>)
    ensures
        be_u32_value(prefix@) <= 65536 ==> r == Ok::<usize, FrameError>(
            be_u32_value(prefix@) as usize,
        ),
        be_u32_value(prefix@) > 65536 ==> r == Err::<usize, FrameError>(
            FrameError::TooLarge { len: be_u32_value(prefix@) as usize, max: 65536 },
        ),
{
    checked_payload_len(prefix, 65536)
}

/// The length of chunk metadata; at most 1 MB is accepted.
pub fn chunk_meta_len(prefix: [u8; 4]) -> (r: Result<usize, FrameError>)
    ensures
        be_u32_value(prefix@) <= MAX_CHUNK_META_LEN ==> r == Ok::<usize, FrameError>(
            be_u32_value(prefix@) as usize,
        ),
        be_u32_value(prefix@) > MAX_CHUNK_META_LEN ==> r == Err::<usize, FrameError>(
            FrameError::TooLarge { len: be_u32_value(prefix@) as usize, max: MAX_CHUNK_META_LEN },
        ),
{
    checked_payload_len(prefix, MAX_CHUNK_META_LEN)
}

/// What an incoming stream carries, by its type byte.
#[derive(Debug, Clone, Copy, PartialEq, Eq, Structural)]
pub enum StreamKind {
    FilePlan,
    ChunkData,
    Unknown(u8),
}

/// Classify a stream by its type byte.
pub fn classify_stream(type_byte: u8) -> (k: StreamKind)
    ensures
        type_byte == STREAM_FILE_PLAN ==> k == StreamKind::FilePlan,
        type_byte == STREAM_CHUNK_DATA ==> k == StreamKind::ChunkData,
        type_byte != STREAM_FILE_PLAN && type_byte != STREAM_CHUNK_DATA ==> k
            == StreamKind::Unknown(type_byte),
{
    if type_byte == STREAM_FILE_PLAN {
        StreamKind::FilePlan
    } else if type_byte == STREAM_CHUNK_DATA {
        StreamKind::ChunkData
    } else {
        StreamKind::Unknown(type_byte)
    }
}

/// Whether a reply byte acknowledges the chunk.
pub fn is_ack(reply: u8) -> (b: bool)
    ensures
        b == (reply == ACK),
{
    reply == ACK
}

/// The compression flag byte read from a chunk stream: any non-zero value
/// means compressed.
pub fn is_compressed_flag(flag: u8) -> (b: bool)
    ensures
        b == (flag != 0),
{
    flag != 0
}

} // verus!
