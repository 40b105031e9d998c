//! # Capability Handshake & Negotiation
//!
//! After a QUIC connection is established, both peers exchange their
//! capabilities on the first bidirectional stream (length-prefixed JSON),
//! then agree on transfer parameters by taking the smaller of each limit
//! and enabling a feature only when both sides support it.

use vstd::prelude::*;

verus! {

/// Largest capabilities message accepted (64 KB).
pub const MAX_HANDSHAKE_LEN: usize = 65536;

/// Capabilities exchanged during the handshake.
#[derive(Debug, Clone)]
pub struct Capabilities {
    /// Protocol version for compatibility checking.
    pub protocol_version: u32,
    /// Maximum number of parallel QUIC streams.
    pub max_streams: u32,
    /// Whether LZ4 compression is supported.
    pub compression_lz4: bool,
    /// Whether ZSTD compression is supported.
    pub compression_zstd: bool,
    /// Maximum chunk size in bytes this device can handle.
    pub max_chunk_size: u64,
    /// Maximum bandwidth in Mbps (self-reported).
    pub max_bandwidth_mbps: u64,
    /// Whether distributed transfer is supported.
    pub distributed_transfer: bool,
    /// Whether transfer resume is supported.
    pub transfer_resume: bool,
    /// Device identifier.
    pub device_id: String,
}

/// The parameters both sides use after a successful handshake.
#[derive(Debug, Clone)]
pub struct NegotiatedParams {
    /// Agreed number of parallel streams.
    pub streams: u32,
    /// Agreed chunk size in bytes.
    pub chunk_size: u64,
    /// Compression to use: `None`, `"lz4"` or `"zstd"`.
    pub compression: Option<String>,
    /// Whether distributed transfer is available.
    pub distributed: bool,
    /// Whether transfer resume is available.
    pub resumable: bool,
}

/// The negotiated parameters as plain values.
pub struct NegotiatedView {
    pub streams: u32,
    pub chunk_size: u64,
    pub compression: Option<Seq<char>>,
    pub distributed: bool,
    pub resumable: bool,
}

impl NegotiatedParams {
    pub open spec fn view_of(self) -> NegotiatedView {
        NegotiatedView {
            streams: self.streams,
            chunk_size: self.chunk_size,
            compression: match self.compression {
                Some(c) => Some(c@),
                None => None,
            },
            distributed: self.distributed,
            resumable: self.resumable,
        }
    }
}

/// The smaller of two values.
pub open spec fn min_u32(a: u32, b: u32) -> u32 {
    if a <= b {
        a
    } else {
        b
    }
}

/// The smaller of two values.
pub open spec fn min_u64(a: u64, b: u64) -> u64 {
    if a <= b {
        a
    } else {
        b
    }
}

/// What two sets of capabilities negotiate to: the smaller stream count and
/// chunk size; ZSTD if both support it, else LZ4 if both support it, else no
/// compression; distributed transfer and resume only if both support them.
pub open spec fn negotiation(ours: Capabilities, theirs: Capabilities) -> NegotiatedView {
    NegotiatedView {
        streams: min_u32(ours.max_streams, theirs.max_streams),
        chunk_size: min_u64(ours.max_chunk_size, theirs.max_chunk_size),
        compression: if ours.compression_zstd && theirs.compression_zstd {
            Some("zstd"@)
        } else if ours.compression_lz4 && theirs.compression_lz4 {
            Some("lz4"@)
        } else {
            None
        },
        distributed: ours.distributed_transfer && theirs.distributed_transfer,
        resumable: ours.transfer_resume && theirs.transfer_resume,
    }
}

/// Our own capabilities (the device identifier is left empty; the caller
/// fills it in).
pub fn our_capabilities() -> (c: Capabilities)
    ensures
        c.protocol_version == 1,
        c.max_streams == 32,
        c.compression_lz4,
        c.compression_zstd,
        c.max_chunk_size == 33554432,
        c.max_bandwidth_mbps == 10000,
        c.distributed_transfer,
        c.transfer_resume,
        c.device_id@ == Seq::<char>::empty(),
{
    Capabilities {
        protocol_version: 1,
        max_streams: 32,
        compression_lz4: true,
        compression_zstd: true,
        max_chunk_size: 33554432,
        max_bandwidth_mbps: 10000,
        distributed_transfer: true,
        transfer_resume: true,
        device_id: String::new(),
    }
}

/// Negotiate transfer parameters from both sides' capabilities.
pub fn negotiate(ours: &Capabilities, theirs: &Capabilities) -> (p: NegotiatedParams)
    ensures
        p.view_of() == negotiation(*ours, *theirs),
{
    let streams = if ours.max_streams <= theirs.max_streams {
        ours.max_streams
    } else {
        theirs.max_streams
    };
    let chunk_size = if ours.max_chunk_size <= theirs.max_chunk_size {
        ours.max_chunk_size
    } else {
        theirs.max_chunk_size
    };
    let compression = if ours.compression_zstd && theirs.compression_zstd {
        Some(String::from_str("zstd"))
    } else if ours.compression_lz4 && theirs.compression_lz4 {
        Some(String::from_str("lz4"))
    } else {
        None
    };
    let distributed = ours.distributed_transfer && theirs.distributed_transfer;
    let resumable = ours.transfer_resume && theirs.transfer_resume;
    NegotiatedParams { streams, chunk_size, compression, distributed, resumable }
}

/// Negotiation does not depend on which side is "ours".
pub proof fn lemma_negotiation_symmetric(a: Capabilities, b: Capabilities)
    ensures
        negotiation(a, b) == negotiation(b, a),
{
}

/// Negotiated limits never exceed either side's limit, and a feature is
/// enabled only when both sides support it.
pub proof fn lemma_negotiation_within_both(a: Capabilities, b: Capabilities)
    ensures
        negotiation(a, b).streams <= a.max_streams,
        negotiation(a, b).streams <= b.max_streams,
        negotiation(a, b).chunk_size <= a.max_chunk_size,
        negotiation(a, b).chunk_size <= b.max_chunk_size,
        negotiation(a, b).distributed ==> a.distributed_transfer && b.distributed_transfer,
        negotiation(a, b).resumable ==> a.transfer_resume && b.transfer_resume,
        negotiation(a, b).compression is Some ==> (a.compression_zstd && b.compression_zstd) || (
        a.compression_lz4 && b.compression_lz4),
{
}

/// Negotiation takes the most both sides allow: the stream count and chunk
/// size are each one side's limit, the smaller one; a feature both sides
/// support (distributed transfer, resume) is enabled; ZSTD is chosen
/// whenever both support it, LZ4 when both support it but not both ZSTD,
/// and no compression only when neither is shared.
pub proof fn lemma_negotiation_takes_all_shared(a: Capabilities, b: Capabilities)
    ensures
        negotiation(a, b).streams == a.max_streams || negotiation(a, b).streams == b.max_streams,
        negotiation(a, b).chunk_size == a.max_chunk_size || negotiation(a, b).chunk_size
            == b.max_chunk_size,
        a.distributed_transfer && b.distributed_transfer ==> negotiation(a, b).distributed,
        a.transfer_resume && b.transfer_resume ==> negotiation(a, b).resumable,
        a.compression_zstd && b.compression_zstd ==> negotiation(a, b).compression == Some("zstd"@),
        !(a.compression_zstd && b.compression_zstd) && a.compression_lz4 && b.compression_lz4
            ==> negotiation(a, b).compression == Some("lz4"@),
        !(a.compression_zstd && b.compression_zstd) && !(a.compression_lz4 && b.compression_lz4)
            ==> negotiation(a, b).compression is None,
{
}

/// Two devices of this version negotiate everything: all 32 streams, 32 MB
/// chunks, ZSTD, distributed transfer and resume.
pub proof fn lemma_own_capabilities_negotiate_fully(a: Capabilities, b: Capabilities)
    requires
        a.max_streams == 32 && a.max_chunk_size == 33554432,
        a.compression_lz4 && a.compression_zstd && a.distributed_transfer && a.transfer_resume,
        b.max_streams == 32 && b.max_chunk_size == 33554432,
        b.compression_lz4 && b.compression_zstd && b.distributed_transfer && b.transfer_resume,
    ensures
        negotiation(a, b).streams == 32,
        negotiation(a, b).chunk_size == 33554432,
        negotiation(a, b).compression == Some("zstd"@),
        negotiation(a, b).distributed,
        negotiation(a, b).resumable,
{
    lemma_negotiation_takes_all_shared(a, b);
    lemma_negotiation_within_both(a, b);
}

} // verus!
