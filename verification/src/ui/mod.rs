//! The state behind the terminal screens and the GUI's status line. The
//! drawing itself belongs to the application.

pub mod screens;
pub mod status;
