//! Language-service settings and bookkeeping.

pub mod analysis;
pub mod config;
pub mod diagnostics;
pub mod documents;
