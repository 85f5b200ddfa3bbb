//! The HTTP control API's decision layer: one function per route, operating
//! on the gateway state; the HTTP framing around them lives in the
//! application.

pub mod code_controller;
pub mod runtime_controller;
