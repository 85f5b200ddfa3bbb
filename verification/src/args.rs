//! Command-line flags and configuration-file data of the script runtime's
//! command layer.

pub mod config_file;
pub mod flags;
