//! Client-side session logic for a chat gateway reached over a WebSocket.
//!
//! The crate models the gateway wire protocol (JSON envelopes with an `op`
//! code), the identify/resume handshakes, the `recv_event` state machine with
//! its recovery policy, and the keepalive worker that owns the outbound half
//! of the transport. All decisions are made here, with contracts; the caller
//! performs the actual I/O and feeds the results back in.

pub mod codec;
pub mod connection;
pub mod error;
pub mod internal;
pub mod json;
pub mod keepalive;
pub mod model;
pub mod voice;

pub use error::Error;
pub use json::Json;
