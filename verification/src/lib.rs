//! HTTP/3 through tower's `async fn(Request) -> Response` model.
//!
//! The crate holds the decisions of a client and a server: what is asked of
//! the transport next, what is handed to the caller and what ends a call, given
//! what the transport answered. Whoever drives a client or a server performs
//! each action and hands back what came of it.

pub mod buffer;
pub mod client;
pub mod frame;
pub mod message;
pub mod poll;
pub mod server;
