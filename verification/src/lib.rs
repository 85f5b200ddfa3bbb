//! Worker/runtime orchestration gateway.
//!
//! The crate manages a pool of per-tenant script-execution workers, each bound
//! to its own dynamically allocated TCP port, together with the routing logic
//! of an HTTP reverse proxy that forwards external requests to the right
//! worker by tenant identifier. The control plane — port allocation, the
//! tenant registry, the listener-loop state machine, and the worker lifecycle
//! operations — is verified; the asynchronous plumbing around it (sockets,
//! channels, HTTP streaming) lives in the surrounding application.

pub mod api;
pub mod args;
pub mod fetch;
pub mod lsp;
pub mod npm;
pub mod proxy;
pub mod registry;
pub mod tools;
pub mod tsc;
pub mod worker;
pub mod worker_util;

use vstd::prelude::*;

verus! {

/// Uniform response envelope of the HTTP control API: `code` is the status
/// discriminant (`0` signals success in this system's convention) and `data`
/// the payload.
#[derive(Debug, Clone)]
pub struct Res<T> {
    pub code: i32,
    pub data: T,
}

} // verus!
