//! # QR Code Scan Checks
//!
//! A scanned QR payload (already decoded from JSON by the caller) is
//! rejected when its pairing token has expired; it is usable when it also
//! names a device, an address and a non-zero port.

use vstd::prelude::*;

use crate::external::clock::{instant_lt, now_instant, parse_rfc3339, rfc3339_instant};
use crate::security::pairing::QrPairingData;

verus! {

/// Why a scanned QR payload was refused.
#[derive(Debug, PartialEq, Eq, Structural)]
pub enum QrError {
    /// The pairing token has expired.
    Expired,
}

/// The payload's expiry time parses and lies before `now`. A payload whose
/// expiry time does not parse is not treated as expired.
pub open spec fn expired_at(expires_at: Seq<char>, now: (i64, u32)) -> bool {
    match rfc3339_instant(expires_at) {
        Some(e) => instant_lt(e, now),
        None => false,
    }
}

/// Whether a token expiring at `expires_at` (RFC 3339 text) has expired
/// at `now` (seconds and nanoseconds since the Unix epoch).
pub fn is_expired(expires_at: &str, now: (i64, u32)) -> (b: bool)
    ensures
        b == expired_at(expires_at@, now),
{
    match parse_rfc3339(expires_at) {
        Some(e) => e.0 < now.0 || (e.0 == now.0 && e.1 < now.1),
        None => false,
    }
}

/// The payload itself, unless its token has expired at `now`.
pub open spec fn freshness_outcome(data: QrPairingData, now: (i64, u32)) -> Result<QrPairingData, QrError> {
    if expired_at(data.expires_at@, now) {
        Err(QrError::Expired)
    } else {
        Ok(data)
    }
}

/// Accept a scanned payload unless its token has expired at the current
/// time.
pub fn check_not_expired(data: QrPairingData) -> (r: Result<QrPairingData, QrError>)
    ensures
        exists|now: (i64, u32)| r == #[trigger] freshness_outcome(data, now),
{
    let now = now_instant();
    let ghost given = data;
    let r = if is_expired(data.expires_at.as_str(), now) {
        Err(QrError::Expired)
    } else {
        Ok(data)
    };
    assert(r == freshness_outcome(given, now));
    r
}

/// The payload names a device, an address and a non-zero port.
pub open spec fn has_required_fields(data: QrPairingData) -> bool {
    data.device_id@.len() > 0 && data.ip_address@.len() > 0 && data.port != 0
}

/// Whether a scanned payload is still usable: its token has not expired at
/// the current time and it names a device, an address and a non-zero port.
pub fn validate_qr_data(data: &QrPairingData) -> (r: Result<bool, QrError>)
    ensures
        exists|now: (i64, u32)|
            r == Ok::<bool, QrError>(!#[trigger] expired_at(data.expires_at@, now) && has_required_fields(*data)),
{
    let now = now_instant();
    if is_expired(data.expires_at.as_str(), now) {
        assert(expired_at(data.expires_at@, now));
        return Ok(false);
    }
    assert(!expired_at(data.expires_at@, now));
    if data.device_id.as_str().is_empty() || data.ip_address.as_str().is_empty() || data.port == 0 {
        return Ok(false);
    }
    Ok(true)
}

} // verus!
