//! Values of the fetch extension's configuration.

use vstd::prelude::*;

verus! {

/// How long an idle connection stays in the HTTP client's pool: the default
/// switch, or an explicit number of seconds.
#[derive(Debug, Clone)]
pub enum PoolIdleTimeout {
    State(bool),
    Specify(u64),
}

/// A fetch handler that rejects every file request; the default when no
/// handler is configured.
#[derive(Clone)]
pub struct DefaultFileFetchHandler;

} // verus!
