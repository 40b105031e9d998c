//! # ZSTD Compression
//!
//! Better ratio than LZ4 at a higher CPU cost: preferred on slower links
//! and highly compressible data.

use vstd::prelude::*;

use crate::compression::lz4::ok_bytes;
use crate::compression::CompressionError;

verus! {

#[verifier::external_type_specification]
#[verifier::external_body]
pub struct ExIoError(std::io::Error);

/// Default ZSTD compression level: a balance of speed and ratio.
pub const DEFAULT_LEVEL: i32 = 3;

/// What `zstd::encode_all` produces for `data` at `level` when it succeeds.
pub uninterp spec fn zstd_frame(data: Seq<u8>, level: i32) -> Seq<u8>;

/// What `zstd::decode_all` decodes `data` to, or `None` where it reports an
/// error.
pub uninterp spec fn zstd_decoded(data: Seq<u8>) -> Option<Seq<u8>>;

/// The level actually used by [`compress_with_level`]: `level` clamped to
/// the range 1..=22.
pub open spec fn clamped_level(level: i32) -> i32 {
    if level < 1 {
        1
    } else if level > 22 {
        22
    } else {
        level
    }
}

/// `outcome` is what decoding `data` gave, and wherever `data` is a frame
/// `encode_all` made of some input, the outcome is that input.
pub open spec fn restores_zstd_input(data: Seq<u8>, outcome: Option<Seq<u8>>) -> bool {
    forall|orig: Seq<u8>, level: i32|
        data == #[trigger] zstd_frame(orig, level) ==> outcome == Some(orig)
}

/// Calls `zstd::encode_all` on an in-memory source.
/// Assumed: it succeeds, and the frame depends on the data and level alone.
/// Reading a byte slice and writing into a `Vec` cannot fail, and libzstd
/// clamps the level instead of refusing it; the one error left in the
/// crate's code is libzstd failing to allocate its own memory, which is
/// not stated here (as Rust's own allocation failure aborts).
#[verifier::external_body]
fn zstd_encode_all(data: &[u8], level: i32) -> (r: Result<Vec<u8>, std::io::Error>)
    ensures
        r.is_ok(),
        r matches Ok(v) ==> v@ == zstd_frame(data@, level),
{
    ::zstd::encode_all(data, level)
}

/// Calls `zstd::decode_all` on an in-memory source.
/// Assumed: the outcome depends on the data alone, and a frame produced by
/// `encode_all` decodes back to the data it was made from (the crate's
/// documented frame format on both sides).
#[verifier::external_body]
fn zstd_decode_all(data: &[u8]) -> (r: Result<Vec<u8>, std::io::Error>)
    ensures
        r.is_ok() == zstd_decoded(data@).is_some(),
        r matches Ok(v) ==> v@ == zstd_decoded(data@).unwrap(),
        restores_zstd_input(data@, ok_bytes(&r)),
{
    ::zstd::decode_all(data)
}

/// Clamp a requested compression level to the supported range 1..=22.
pub fn clamp_level(level: i32) -> (l: i32)
    ensures
        l == clamped_level(level),
{
    if level < 1 {
        1
    } else if level > 22 {
        22
    } else {
        level
    }
}

/// Compress data with ZSTD at the default level (3). Compressing
/// in-memory data always succeeds.
pub fn compress(data: &[u8]) -> (r: Result<Vec<u8>, CompressionError>)
    ensures
        r matches Ok(v) && v@ == zstd_frame(data@, DEFAULT_LEVEL),
{
    match zstd_encode_all(data, DEFAULT_LEVEL) {
        Ok(v) => Ok(v),
        Err(_) => Err(CompressionError::ZstdCompress),
    }
}

/// Compress data at a specific level; levels outside 1..=22 are clamped,
/// not refused. Compressing in-memory data always succeeds.
pub fn compress_with_level(data: &[u8], level: i32) -> (r: Result<Vec<u8>, CompressionError>)
    ensures
        r matches Ok(v) && v@ == zstd_frame(data@, clamped_level(level)),
{
    let level = clamp_level(level);
    match zstd_encode_all(data, level) {
        Ok(v) => Ok(v),
        Err(_) => Err(CompressionError::ZstdCompress),
    }
}

/// Decompress ZSTD data.
pub fn decompress(data: &[u8]) -> (r: Result<Vec<u8>, CompressionError>)
    ensures
        match zstd_decoded(data@) {
            None => r == Err::<Vec<u8>, CompressionError>(CompressionError::ZstdDecompress),
            Some(d) => r matches Ok(v) && v@ == d,
        },
        // Round trip: any frame `compress_with_level` produced decodes back.
        forall|orig: Seq<u8>, level: i32|
            data@ == #[trigger] zstd_frame(orig, level) ==> (r matches Ok(v) && v@ == orig),
{
    match zstd_decode_all(data) {
        Ok(v) => Ok(v),
        Err(_) => Err(CompressionError::ZstdDecompress),
    }
}

} // verus!
