//! The commands of the command line.
pub mod laws;
pub mod status;
pub mod update;
