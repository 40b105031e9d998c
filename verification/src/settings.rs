//! Process-wide transfer toggles (checksum verification, compression).

use vstd::prelude::*;

verus! {

/// The two transfer toggles that the user can flip from the settings screen.
///
/// Both start disabled: checksum verification is off for speed, and
/// compression only pays off on slow networks.
pub struct TransferSettings {
    pub checksum_enabled: bool,
    pub compression_enabled: bool,
}

impl TransferSettings {
    /// Settings as they are when the engine starts.
    pub fn new() -> (s: Self)
        ensures
            !s.checksum_enabled,
            !s.compression_enabled,
    {
        TransferSettings { checksum_enabled: false, compression_enabled: false }
    }

    /// Whether chunk checksums are verified.
    pub fn is_checksum_enabled(&self) -> (b: bool)
        ensures
            b == self.checksum_enabled,
    {
        self.checksum_enabled
    }

    /// Enable or disable checksum verification.
    pub fn set_checksum_enabled(&mut self, enabled: bool)
        ensures
            final(self).checksum_enabled == enabled,
            final(self).compression_enabled == old(self).compression_enabled,
    {
        self.checksum_enabled = enabled;
    }

    /// Whether chunk compression is enabled.
    pub fn is_compression_enabled(&self) -> (b: bool)
        ensures
            b == self.compression_enabled,
    {
        self.compression_enabled
    }

    /// Enable or disable compression.
    pub fn set_compression_enabled(&mut self, enabled: bool)
        ensures
            final(self).compression_enabled == enabled,
            final(self).checksum_enabled == old(self).checksum_enabled,
    {
        self.compression_enabled = enabled;
    }
}

} // verus!
