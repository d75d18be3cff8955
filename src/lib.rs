//! Client logic for a remote code-execution sandbox service: session
//! identifiers, request targets, decoding of streamed execution events and
//! the decisions of the task that forwards those events to a caller.

pub mod endpoints;
pub mod json;
pub mod event;
pub mod lifecycle;
pub mod producer;
