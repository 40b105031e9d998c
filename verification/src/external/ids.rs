//! Random identifiers (uuid crate, version 4).

use vstd::prelude::*;

verus! {

/// A lowercase hexadecimal digit character.
pub open spec fn is_lower_hex_char(c: char) -> bool {
    ('0' <= c && c <= '9') || ('a' <= c && c <= 'f')
}

/// The hyphenated text form of a UUID: 36 characters, hyphens at positions
/// 8, 13, 18 and 23, lowercase hex digits elsewhere.
pub open spec fn is_uuid_text(s: Seq<char>) -> bool {
    &&& s.len() == 36
    &&& forall|i: int|
        0 <= i < 36 ==> if i == 8 || i == 13 || i == 18 || i == 23 {
            #[trigger] s[i] == '-'
        } else {
            is_lower_hex_char(s[i])
        }
}

/// Calls `uuid::Uuid::new_v4()` and renders it with `to_string()`.
/// The value is random; assumed only that the text has the hyphenated
/// lowercase shape that uuid's `Display` produces.
#[verifier::external_body]
pub(crate) fn new_uuid_v4_string() -> (s: String)
    ensures
        is_uuid_text(s@),
{
    uuid::Uuid::new_v4().to_string()
}

/// Calls `uuid::Uuid::new_v4()` and returns its 16 bytes. The bytes are
/// random; nothing is assumed of them.
#[verifier::external_body]
pub(crate) fn new_uuid_v4_bytes() -> (b: [u8; 16]) {
    *uuid::Uuid::new_v4().as_bytes()
}

} // verus!
