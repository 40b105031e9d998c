//! # LZ4 Compression
//!
//! Very fast compression for high-throughput links where CPU time, not
//! bandwidth, is the bottleneck. The compressed form carries the
//! uncompressed size as a little-endian `u32` prefix.

use vstd::prelude::*;

use crate::compression::CompressionError;

verus! {

#[verifier::external_type_specification]
#[verifier::external_body]
pub struct ExLz4DecompressError(lz4_flex::block::DecompressError);

/// What `lz4_flex::compress_prepend_size` produces for `data`.
pub uninterp spec fn lz4_with_size(data: Seq<u8>) -> Seq<u8>;

/// What `lz4_flex::decompress_size_prepended` decodes `data` to, or `None`
/// where it reports an error.
pub uninterp spec fn lz4_decoded(data: Seq<u8>) -> Option<Seq<u8>>;

/// The four little-endian bytes of `n`.
pub open spec fn u32_le_bytes(n: u32) -> Seq<u8> {
    seq![
        (n % 256) as u8,
        ((n / 256) % 256) as u8,
        ((n / 65536) % 256) as u8,
        (n / 16777216) as u8,
    ]
}

/// The bytes of a successful result, `None` for an error.
pub open spec fn ok_bytes<E>(r: &Result<Vec<u8>, E>) -> Option<Seq<u8>> {
    match r {
        Ok(v) => Some(v@),
        Err(_) => None,
    }
}

/// `outcome` is what decoding `data` gave, and wherever `data` is what
/// `compress_prepend_size` made of some input shorter than 2^32 bytes, the
/// outcome is that input.
pub open spec fn restores_lz4_input(data: Seq<u8>, outcome: Option<Seq<u8>>) -> bool {
    forall|orig: Seq<u8>|
        data == #[trigger] lz4_with_size(orig) && orig.len() <= u32::MAX ==> outcome == Some(orig)
}

/// Calls `lz4_flex::compress_prepend_size`.
/// Assumed (from its source and documentation): the output starts with the
/// input length as a little-endian `u32` (truncated as `as u32` does),
/// followed by the LZ4 block.
#[verifier::external_body]
fn lz4_compress_prepend_size(data: &[u8]) -> (r: Vec<u8>)
    ensures
        r@ == lz4_with_size(data@),
        r@.len() >= 4,
        r@.subrange(0, 4) == u32_le_bytes((data@.len() % 0x1_0000_0000) as u32),
{
    lz4_flex::compress_prepend_size(data)
}

/// Calls `lz4_flex::decompress_size_prepended`.
/// Assumed: the outcome depends on the input alone, and the output of
/// `compress_prepend_size` for an input shorter than 2^32 bytes decodes back
/// to that input (the crate's documented pairing of the two functions).
/// Not stated: the crate allocates a zeroed buffer of the size the prefix
/// declares before decoding, so a prefix declaring more memory than the
/// machine can give aborts the process instead of returning.
#[verifier::external_body]
fn lz4_decompress_size_prepended(data: &[u8]) -> (r: Result<
    Vec<u8>,
    lz4_flex::block::DecompressError,
>)
    ensures
        r.is_ok() == lz4_decoded(data@).is_some(),
        r matches Ok(v) ==> v@ == lz4_decoded(data@).unwrap(),
        restores_lz4_input(data@, ok_bytes(&r)),
{
    lz4_flex::decompress_size_prepended(data)
}

/// Compress data using LZ4, with the uncompressed size prepended.
///
/// Always succeeds. If compression does not reduce the size, the caller
/// should send the data uncompressed instead.
pub fn compress(data: &[u8]) -> (r: Result<Vec<u8>, CompressionError>)
    ensures
        r matches Ok(v) && v@ == lz4_with_size(data@),
        r matches Ok(v) && v@.len() >= 4 && v@.subrange(0, 4) == u32_le_bytes(
            (data@.len() % 0x1_0000_0000) as u32,
        ),
{
    Ok(lz4_compress_prepend_size(data))
}

/// Decompress LZ4 data produced by [`compress`].
///
/// `max_output_size` is a safety limit: a stream that decodes to more bytes
/// is rejected.
pub fn decompress(data: &[u8], max_output_size: usize) -> (r: Result<Vec<u8>, CompressionError>)
    ensures
        match lz4_decoded(data@) {
            None => r == Err::<Vec<u8>, CompressionError>(CompressionError::Lz4Decompress),
            Some(d) => if d.len() > max_output_size {
                r == Err::<Vec<u8>, CompressionError>(
                    CompressionError::Lz4SizeExceeded { size: d.len() as usize, max: max_output_size },
                )
            } else {
                r matches Ok(v) && v@ == d
            },
        },
        // Round trip: what `compress` produced decodes back to the original,
        // which is returned when it fits the limit and refused when it
        // does not.
        forall|orig: Seq<u8>|
            data@ == #[trigger] lz4_with_size(orig) && orig.len() <= u32::MAX ==> {
                &&& lz4_decoded(data@) == Some(orig)
                &&& if orig.len() <= max_output_size {
                    r matches Ok(v) && v@ == orig
                } else {
                    r == Err::<Vec<u8>, CompressionError>(
                        CompressionError::Lz4SizeExceeded { size: orig.len() as usize, max: max_output_size },
                    )
                }
            },
{
    match lz4_decompress_size_prepended(data) {
        Ok(decompressed) => {
            if decompressed.len() > max_output_size {
                Err(
                    CompressionError::Lz4SizeExceeded {
                        size: decompressed.len(),
                        max: max_output_size,
                    },
                )
            } else {
                Ok(decompressed)
            }
        },
        Err(_) => Err(CompressionError::Lz4Decompress),
    }
}

} // verus!
