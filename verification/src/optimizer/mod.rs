//! Network optimizer: performance samples and the adaptive tuning of
//! transfer parameters.

pub mod adaptive_stream_controller;
pub mod network_monitor;
