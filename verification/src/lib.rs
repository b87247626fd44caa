//! Request framing, validation, authentication and response bounds for the
//! loopback transport that lets another local process hand one JSON request at
//! a time to an editor-side handler.
//!
//! The socket, thread and JSON plumbing live in the application crate; this
//! library holds every decision that plumbing makes, each with its contract.

pub mod limits;
pub mod text;
pub mod wire;
pub mod response;
pub mod wait;
pub mod lifecycle;
