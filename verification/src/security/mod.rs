//! Transfer authorization and device pairing.

pub mod auth;
pub mod pairing;
