//! The transfer engine: chunk planning, scheduling, sending, receiving and
//! resume state.
pub mod chunker;
pub mod resume;
pub mod scheduler;
pub mod sender;
pub mod receiver;
