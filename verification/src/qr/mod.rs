//! QR pairing codes: generating them from a payload, and checking a
//! scanned payload.

pub mod generate;
pub mod scan;
