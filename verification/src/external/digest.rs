//! SHA-256 (sha2 crate), at once or block by block, and lowercase hex
//! text.

use vstd::prelude::*;

use crate::text::lower_hex;

verus! {

/// The SHA-256 digest of `data`, as the sha2 crate computes it.
pub uninterp spec fn sha256_of(data: Seq<u8>) -> Seq<u8>;

/// The character for a nibble value `n` (0..16) in lowercase hex.
pub open spec fn hex_char(n: int) -> char {
    if n < 10 {
        (n + 48) as char
    } else {
        (n + 87) as char
    }
}

/// Lowercase hexadecimal text of `bytes`: two characters per byte, high
/// nibble first.
pub open spec fn hex_lower(bytes: Seq<u8>) -> Seq<char>
    decreases bytes.len(),
{
    if bytes.len() == 0 {
        Seq::empty()
    } else {
        seq![hex_char(bytes[0] as int / 16), hex_char(bytes[0] as int % 16)] + hex_lower(bytes.drop_first())
    }
}

/// Calls `<sha2::Sha256 as sha2::Digest>::digest` on `data`.
/// Assumed: the result is the 32-byte SHA-256 digest of `data` (named, not
/// spelled out).
#[verifier::external_body]
pub(crate) fn sha256(data: &[u8]) -> (r: Vec<u8>)
    ensures
        r@ == sha256_of(data@),
        r@.len() == 32,
{
    <sha2::Sha256 as sha2::Digest>::digest(data).to_vec()
}

/// An incremental SHA-256 computation (`sha2::Sha256`) over the bytes fed
/// to it so far. Verus refuses the declaration of `sha2::Sha256`, a type
/// alias over generic digest wrappers, so the hasher is held in a private
/// field out of Verus's sight; what it has been fed is named below.
#[verifier::external_body]
pub struct Sha256Stream {
    hasher: sha2::Sha256,
}

/// The bytes fed to a SHA-256 stream so far, in order.
pub uninterp spec fn sha256_stream_fed(h: Sha256Stream) -> Seq<u8>;

/// Calls `Digest::new` for `sha2::Sha256`: a stream fed nothing yet.
#[verifier::external_body]
pub(crate) fn sha256_stream_new() -> (h: Sha256Stream)
    ensures
        sha256_stream_fed(h) == Seq::<u8>::empty(),
{
    Sha256Stream { hasher: <sha2::Sha256 as sha2::Digest>::new() }
}

/// Calls `Digest::update` with `block`: the block is appended to what the
/// stream has been fed.
#[verifier::external_body]
pub(crate) fn sha256_stream_update(h: &mut Sha256Stream, block: &[u8])
    ensures
        sha256_stream_fed(*final(h)) == sha256_stream_fed(*old(h)) + block@,
{
    <sha2::Sha256 as sha2::Digest>::update(&mut h.hasher, block)
}

/// Calls `Digest::finalize`. Assumed: the result is the 32-byte SHA-256
/// digest of all the bytes fed, in order (the same digest `sha256` gives
/// for them at once, as the digest crate documents).
#[verifier::external_body]
pub(crate) fn sha256_stream_finish(h: Sha256Stream) -> (r: Vec<u8>)
    ensures
        r@ == sha256_of(sha256_stream_fed(h)),
        r@.len() == 32,
{
    <sha2::Sha256 as sha2::Digest>::finalize(h.hasher).to_vec()
}

/// Lowercase hex text of the SHA-256 digest of `data`: the checksum format
/// carried in chunk metadata.
pub fn checksum_hex(data: &[u8]) -> (s: String)
    ensures
        s@ == hex_lower(sha256_of(data@)),
{
    let digest = sha256(data);
    lower_hex(digest.as_slice())
}

/// The hex text of `n` bytes has `2 * n` characters.
pub proof fn lemma_hex_lower_len(bytes: Seq<u8>)
    ensures
        hex_lower(bytes).len() == 2 * bytes.len(),
    decreases bytes.len(),
{
    if bytes.len() > 0 {
        lemma_hex_lower_len(bytes.drop_first());
    }
}

} // verus!
