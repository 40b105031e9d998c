//! Trusted bridges to the outside crates the engine relies on for hashing,
//! hex encoding, random identifiers and wall-clock time. Each bridge states
//! what is assumed of the outside function; everything built on them is
//! verified.

pub mod clock;
pub mod digest;
pub mod ids;
