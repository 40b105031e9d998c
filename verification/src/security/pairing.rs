//! # Device Pairing
//!
//! 1. **Temporary pairing code**: a six-digit code derived from both device
//!    IDs and the current time, shown on both devices for the user to
//!    compare.
//! 2. **QR pairing**: a QR payload with connection details and a one-time
//!    token that expires after five minutes.
//! 3. **Shared secret**: once the code is confirmed, a secret is derived
//!    from the two device IDs (ours first) and the code.

use vstd::prelude::*;
use vstd::utf8::encode_utf8;

use crate::external::clock::{
    clock_reading, instant_lt, is_clock_stamp, now_instant, now_rfc3339, now_timestamp_nanos, parse_rfc3339,
    rfc3339_instant, rfc3339_of, LAST_RFC3339_SECOND,
};
use crate::external::digest::{hex_lower, sha256, sha256_of};
use crate::external::ids::{is_uuid_text, new_uuid_v4_string};
use crate::network::protocol::{append_bytes, be_u32_value};
use crate::text::{decimal_i64, decimal_signed, decimal_zero_padded, lower_hex, zero_padded};

verus! {

/// How long a pairing code or QR token stays valid, in seconds.
pub const PAIRING_KEY_VALIDITY_SECS: u64 = 300;

/// Number of digits of a pairing code.
pub const PAIRING_CODE_LENGTH: usize = 6;

/// A pairing session between two devices.
#[derive(Debug, Clone)]
pub struct PairingSession {
    /// Unique session identifier.
    pub session_id: String,
    /// Our device ID.
    pub our_device_id: String,
    /// Remote device ID.
    pub remote_device_id: String,
    /// The six-digit pairing code shown to the user.
    pub pairing_code: String,
    /// Shared secret, set once the pairing is confirmed.
    pub shared_secret: Option<String>,
    /// RFC 3339 creation time.
    pub created_at: String,
    /// Whether the pairing is confirmed.
    pub confirmed: bool,
}

impl PairingSession {
    /// A field-by-field copy.
    pub fn duplicate(&self) -> (r: Self)
        ensures
            r == *self,
    {
        PairingSession {
            session_id: self.session_id.clone(),
            our_device_id: self.our_device_id.clone(),
            remote_device_id: self.remote_device_id.clone(),
            pairing_code: self.pairing_code.clone(),
            shared_secret: match &self.shared_secret {
                Some(s) => Some(s.clone()),
                None => None,
            },
            created_at: self.created_at.clone(),
            confirmed: self.confirmed,
        }
    }
}

/// QR code pairing payload.
#[derive(Debug, Clone)]
pub struct QrPairingData {
    /// Device ID of the QR generator.
    pub device_id: String,
    /// Device name.
    pub device_name: String,
    /// IP address.
    pub ip_address: String,
    /// Port.
    pub port: u16,
    /// One-time pairing token.
    pub pairing_token: String,
    /// RFC 3339 expiration time.
    pub expires_at: String,
}

/// Why a pairing step failed.
#[derive(Debug, PartialEq, Eq, Structural)]
pub enum PairingError {
    /// No session has the given ID.
    SessionNotFound,
}

/// The text hashed to derive a pairing code: our ID, the remote ID and a
/// nanosecond timestamp, separated by colons.
pub open spec fn pairing_seed(our_id: Seq<char>, remote_id: Seq<char>, nanos: int) -> Seq<char> {
    our_id + ":"@ + remote_id + ":"@ + decimal_signed(nanos)
}

/// The six-digit code of a digest: its first four bytes as a big-endian
/// number, modulo one million, zero-padded.
pub open spec fn code_of_digest(digest: Seq<u8>) -> Seq<char> {
    zero_padded((be_u32_value(digest.subrange(0, 4)) % 1000000) as nat, 6)
}

/// The pairing code for a seed text.
pub open spec fn pairing_code_for(seed: Seq<char>) -> Seq<char> {
    code_of_digest(sha256_of(encode_utf8(seed)))
}

/// The shared secret both devices derive once the code is confirmed:
/// lowercase hex SHA-256 of our ID, the remote ID and the code, in that
/// order.
pub open spec fn shared_secret_for(our_id: Seq<char>, remote_id: Seq<char>, code: Seq<char>) -> Seq<char> {
    hex_lower(sha256_of(encode_utf8(our_id) + encode_utf8(remote_id) + encode_utf8(code)))
}

/// A session created at `created` is still valid at `now`: it was created
/// less than five minutes before `now`. A session whose creation time does
/// not parse is not valid.
pub open spec fn session_fresh(created: Option<(i64, u32)>, now: (i64, u32)) -> bool {
    match created {
        Some(c) => now.0 - PAIRING_KEY_VALIDITY_SECS < c.0 || (now.0 - PAIRING_KEY_VALIDITY_SECS == c.0
            && now.1 < c.1),
        None => false,
    }
}

/// The sessions kept at `now`: those still fresh.
pub open spec fn still_fresh_at(now: (i64, u32)) -> spec_fn(PairingSession) -> bool {
    |s: PairingSession| session_fresh(rfc3339_instant(s.created_at@), now)
}

/// How long a QR pairing token is valid, in seconds.
pub const QR_TOKEN_VALIDITY_SECS: i64 = 300;

/// When a QR token issued at clock reading `now` expires: five minutes
/// later. RFC 3339 text holds no year after 9999, so a later expiry is
/// written as the last second of 9999.
pub open spec fn qr_expiry_for(now: (i64, u32)) -> (i64, u32) {
    if now.0 <= LAST_RFC3339_SECOND - QR_TOKEN_VALIDITY_SECS {
        ((now.0 + QR_TOKEN_VALIDITY_SECS) as i64, now.1)
    } else {
        (LAST_RFC3339_SECOND, now.1)
    }
}

/// A session lives five minutes from its creation: at a clock reading
/// `now` it is kept exactly when `now` comes before its creation instant
/// plus `PAIRING_KEY_VALIDITY_SECS` seconds; it is kept at the moment it
/// was created and dropped from five minutes later on; a session whose
/// creation time does not parse is dropped.
pub proof fn lemma_session_lives_five_minutes(s: PairingSession, now: (i64, u32))
    ensures
        match rfc3339_instant(s.created_at@) {
            Some(c) => c.0 + PAIRING_KEY_VALIDITY_SECS <= i64::MAX ==> {
                &&& still_fresh_at(now)(s) <==> instant_lt(
                    now,
                    ((c.0 + PAIRING_KEY_VALIDITY_SECS) as i64, c.1),
                )
                &&& still_fresh_at(c)(s)
                &&& !still_fresh_at(((c.0 + PAIRING_KEY_VALIDITY_SECS) as i64, c.1))(s)
            },
            None => !still_fresh_at(now)(s),
        },
{
}

/// The pairing manager: our device ID and the active sessions.
pub struct PairingManager {
    device_id: String,
    sessions: Vec<PairingSession>,
}

/// Index of the first session with this ID.
pub open spec fn first_session_with(sessions: Seq<PairingSession>, id: Seq<char>, i: int) -> bool {
    &&& 0 <= i < sessions.len()
    &&& sessions[i].session_id@ == id
    &&& forall|j: int| 0 <= j < i ==> sessions[j].session_id@ != id
}

/// A session just added under an ID no earlier session has is the one
/// `confirm_pairing` finds for that ID: confirming it with its own code
/// therefore succeeds and stores the shared secret.
pub proof fn lemma_new_session_is_found(sessions: Seq<PairingSession>, s: PairingSession)
    requires
        forall|j: int| 0 <= j < sessions.len() ==> sessions[j].session_id@ != s.session_id@,
    ensures
        first_session_with(sessions.push(s), s.session_id@, sessions.len() as int),
        sessions.push(s)[sessions.len() as int].pairing_code == s.pairing_code,
{
    assert forall|j: int| 0 <= j < sessions.len() implies sessions.push(s)[j].session_id@
        != s.session_id@ by {
        assert(sessions.push(s)[j] == sessions[j]);
    }
}

impl PairingManager {
    /// Our device ID.
    pub closed spec fn own_id(&self) -> Seq<char> {
        self.device_id@
    }

    /// The active sessions, oldest first.
    pub closed spec fn session_list(&self) -> Seq<PairingSession> {
        self.sessions@
    }

    /// A manager for our device with no sessions.
    pub fn new(device_id: String) -> (m: Self)
        ensures
            m.own_id() == device_id@,
            m.session_list() == Seq::<PairingSession>::empty(),
    {
        PairingManager { device_id, sessions: Vec::new() }
    }

    /// The active sessions.
    pub fn sessions(&self) -> (s: &Vec<PairingSession>)
        ensures
            s@ == self.session_list(),
    {
        &self.sessions
    }

    /// Start a pairing session with a remote device: derive a six-digit
    /// code from both IDs and the current time, record the session and
    /// return it.
    pub fn generate_pairing_code(&mut self, remote_device_id: &str) -> (s: PairingSession)
        ensures
            final(self).own_id() == old(self).own_id(),
            final(self).session_list() == old(self).session_list().push(s),
            is_uuid_text(s.session_id@),
            s.our_device_id@ == old(self).own_id(),
            s.remote_device_id@ == remote_device_id@,
            exists|nanos: i64|
                s.pairing_code@ == pairing_code_for(
                    pairing_seed(old(self).own_id(), remote_device_id@, nanos as int),
                ),
            s.pairing_code@.len() == 6,
            s.shared_secret is None,
            !s.confirmed,
            is_clock_stamp(s.created_at@),
    {
        let nanos = match now_timestamp_nanos() {
            Some(t) => t,
            None => 0,
        };
        let mut seed = self.device_id.clone();
        seed.append(":");
        seed.append(remote_device_id);
        seed.append(":");
        let t = decimal_i64(nanos);
        seed.append(t.as_str());
        assert(seed@ == pairing_seed(self.device_id@, remote_device_id@, nanos as int));
        let digest = sha256(seed.as_str().as_bytes());
        let code_num: u32 = (digest[0] as u32 * 16777216 + digest[1] as u32 * 65536 + digest[2] as u32
            * 256 + digest[3] as u32) % 1000000;
        assert(digest@.subrange(0, 4)[0] == digest@[0]);
        assert(digest@.subrange(0, 4)[3] == digest@[3]);
        let pairing_code = decimal_zero_padded(code_num as u64, 6);
        proof {
            vstd::arithmetic::power::lemma_pow_positive(10, 6);
            assert(vstd::arithmetic::power::pow(10, 6) == 1000000) by {
                vstd::arithmetic::power::lemma_pow_adds(10, 1, 5);
                vstd::arithmetic::power::lemma_pow_adds(10, 1, 4);
                vstd::arithmetic::power::lemma_pow_adds(10, 1, 3);
                vstd::arithmetic::power::lemma_pow_adds(10, 1, 2);
                vstd::arithmetic::power::lemma_pow_adds(10, 1, 1);
                vstd::arithmetic::power::lemma_pow1(10);
            }
            crate::text::lemma_zero_padded_len(code_num as nat, 6);
            assert(digest@ == sha256_of(encode_utf8(seed@)));
            assert(code_num == be_u32_value(digest@.subrange(0, 4)) % 1000000);
            assert(pairing_code@ == pairing_code_for(
                pairing_seed(self.device_id@, remote_device_id@, nanos as int),
            ));
        }
        let session = PairingSession {
            session_id: new_uuid_v4_string(),
            our_device_id: self.device_id.clone(),
            remote_device_id: String::from_str(remote_device_id),
            pairing_code,
            shared_secret: None,
            created_at: now_rfc3339(),
            confirmed: false,
        };
        self.sessions.push(session.duplicate());
        session
    }

    /// Confirm a pairing: when `code` matches the session's code, mark the
    /// session confirmed, store the shared secret and return `true`; on a
    /// mismatch return `false` and leave the session as it is. The first
    /// session with the ID is the one used; an unknown ID is an error.
    pub fn confirm_pairing(&mut self, session_id: &str, code: &str) -> (r: Result<bool, PairingError>)
        ensures
            final(self).own_id() == old(self).own_id(),
            (forall|i: int| 0 <= i < old(self).session_list().len() ==> #[trigger] old(self).session_list()[i].session_id@ != session_id@) ==> r == Err::<bool, PairingError>(PairingError::SessionNotFound) && final(self).session_list() == old(self).session_list(),
            forall|i: int| first_session_with(old(self).session_list(), session_id@, i) ==> {
                let s = old(self).session_list()[i];
                if s.pairing_code@ == code@ {
                    &&& r == Ok::<bool, PairingError>(true)
                    &&& final(self).session_list().len() == old(self).session_list().len()
                    &&& forall|j: int| 0 <= j < old(self).session_list().len() && j != i ==> final(self).session_list()[j] == old(self).session_list()[j]
                    &&& final(self).session_list()[i].confirmed
                    &&& final(self).session_list()[i].session_id == s.session_id
                    &&& final(self).session_list()[i].our_device_id == s.our_device_id
                    &&& final(self).session_list()[i].remote_device_id == s.remote_device_id
                    &&& final(self).session_list()[i].pairing_code == s.pairing_code
                    &&& final(self).session_list()[i].created_at == s.created_at
                    &&& final(self).session_list()[i].shared_secret matches Some(secret) && secret@ == shared_secret_for(s.our_device_id@, s.remote_device_id@, code@)
                } else {
                    r == Ok::<bool, PairingError>(false) && final(self).session_list() == old(self).session_list()
                }
            },
    {
        let mut i: usize = 0;
        while i < self.sessions.len()
            invariant
                i <= self.sessions@.len(),
                self.sessions@ == old(self).sessions@,
                self.device_id == old(self).device_id,
                forall|j: int| 0 <= j < i ==> self.sessions@[j].session_id@ != session_id@,
            decreases self.sessions@.len() - i,
        {
            let id = String::from_str(session_id);
            if self.sessions[i].session_id == id {
                let s = self.sessions[i].duplicate();
                let expected = String::from_str(code);
                if s.pairing_code == expected {
                    let mut material: Vec<u8> = Vec::new();
                    append_bytes(&mut material, s.our_device_id.as_str().as_bytes());
                    append_bytes(&mut material, s.remote_device_id.as_str().as_bytes());
                    append_bytes(&mut material, code.as_bytes());
                    let digest = sha256(material.as_slice());
                    let secret = lower_hex(digest.as_slice());
                    let updated = PairingSession {
                        session_id: s.session_id,
                        our_device_id: s.our_device_id,
                        remote_device_id: s.remote_device_id,
                        pairing_code: s.pairing_code,
                        shared_secret: Some(secret),
                        created_at: s.created_at,
                        confirmed: true,
                    };
                    self.sessions.set(i, updated);
                    proof {
                        assert forall|k: int| first_session_with(old(self).sessions@, session_id@, k) implies k == i by {
                            if k < i {
                            } else if k > i {
                                assert(old(self).sessions@[i as int].session_id@ == session_id@);
                            }
                        }
                    }
                    return Ok(true);
                } else {
                    proof {
                        assert forall|k: int| first_session_with(old(self).sessions@, session_id@, k) implies k == i by {
                            if k > i {
                                assert(old(self).sessions@[i as int].session_id@ == session_id@);
                            }
                        }
                    }
                    return Ok(false);
                }
            }
            i = i + 1;
        }
        Err(PairingError::SessionNotFound)
    }

    /// QR pairing data for this device: connection details and a fresh
    /// random token that expires five minutes from now.
    pub fn generate_qr_data(&self, device_name: &str, ip_address: &str, port: u16) -> (q: QrPairingData)
        ensures
            q.device_id@ == self.own_id(),
            q.device_name@ == device_name@,
            q.ip_address@ == ip_address@,
            q.port == port,
            is_uuid_text(q.pairing_token@),
            exists|now: (i64, u32)|
                clock_reading(now) && rfc3339_instant(q.expires_at@) == Some(
                    #[trigger] qr_expiry_for(now),
                ),
    {
        let now = now_instant();
        let secs = if now.0 <= LAST_RFC3339_SECOND - QR_TOKEN_VALIDITY_SECS {
            now.0 + QR_TOKEN_VALIDITY_SECS
        } else {
            LAST_RFC3339_SECOND
        };
        let expires_at = match rfc3339_of((secs, now.1)) {
            Some(text) => text,
            None => String::new(),
        };
        assert(clock_reading(now) && rfc3339_instant(expires_at@) == Some(qr_expiry_for(now)));
        QrPairingData {
            device_id: self.device_id.clone(),
            device_name: String::from_str(device_name),
            ip_address: String::from_str(ip_address),
            port,
            pairing_token: new_uuid_v4_string(),
            expires_at,
        }
    }

    /// Drop the sessions no longer fresh at the current time (created five
    /// minutes ago or earlier, or with a creation time that does not
    /// parse); the rest keep their order. Returns the clock reading used:
    /// the kept sessions are exactly those fresh at it. Which reading the
    /// machine's clock gives is not stated; that it is the one filtered at
    /// is.
    pub fn cleanup_expired(&mut self) -> (now: (i64, u32))
        ensures
            clock_reading(now),
            final(self).own_id() == old(self).own_id(),
            final(self).session_list() == old(self).session_list().filter(still_fresh_at(now)),
    {
        let now = now_instant();
        self.retain_fresh_at(now);
        now
    }

    /// Keep only the sessions still fresh at `now` (seconds and nanoseconds
    /// since the Unix epoch): created less than five minutes before `now`,
    /// with a creation time that parses. The kept sessions keep their
    /// order.
    pub fn retain_fresh_at(&mut self, now: (i64, u32))
        ensures
            final(self).own_id() == old(self).own_id(),
            final(self).session_list() == old(self).session_list().filter(still_fresh_at(now)),
    {
        let ghost keep = still_fresh_at(now);
        let mut kept: Vec<PairingSession> = Vec::new();
        let mut i: usize = 0;
        while i < self.sessions.len()
            invariant
                i <= self.sessions@.len(),
                self.sessions@ == old(self).sessions@,
                self.device_id == old(self).device_id,
                keep == still_fresh_at(now),
                kept@ == self.sessions@.take(i as int).filter(keep),
            decreases self.sessions@.len() - i,
        {
            proof {
                assert(self.sessions@.take(i + 1).drop_last() =~= self.sessions@.take(i as int));
                assert(self.sessions@.take(i + 1).last() == self.sessions@[i as int]);
                reveal(Seq::filter);
            }
            let s = &self.sessions[i];
            let fresh = match parse_rfc3339(s.created_at.as_str()) {
                Some(created) => {
                    let cutoff_secs: i128 = now.0 as i128 - PAIRING_KEY_VALIDITY_SECS as i128;
                    cutoff_secs < created.0 as i128 || (cutoff_secs == created.0 as i128
                        && now.1 < created.1)
                },
                None => false,
            };
            if fresh {
                kept.push(s.duplicate());
            }
            i = i + 1;
        }
        assert(self.sessions@.take(self.sessions@.len() as int) =~= self.sessions@);
        self.sessions = kept;
    }
}

} // verus!
