//! The command layer's tools: test collection and the read-eval-print loop.

pub mod repl;
pub mod test;
