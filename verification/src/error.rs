//! Error kinds surfaced by the gateway session logic.

use vstd::prelude::*;

verus! {

/// What went wrong while driving a gateway session.
///
/// `Transport` and `Closed` are recoverable: the connection logic answers
/// them with a resume or a reconnect. The rest propagate to the caller.
#[derive(Debug)]
pub enum Error {
    /// I/O failure on the socket.
    Transport,
    /// The peer sent a close frame, with its close code and payload.
    Closed(Option<u16>, Vec<u8>),
    /// An unexpected frame arrived during a handshake.
    Protocol(&'static str),
    /// The configured gateway URL is malformed.
    InvalidUrl,
    /// An inbound frame does not fit the gateway envelope.
    Decoding(&'static str),
    /// A value could not be encoded for sending.
    Encoding,
    /// Catch-all for collaborator failures.
    Other(&'static str),
}

impl Error {
    /// True for the error kinds that the recovery policy may answer with a
    /// resume or a reconnect instead of surfacing them.
    pub open spec fn is_recoverable(self) -> bool {
        match self {
            Error::Transport => true,
            Error::Closed(_, _) => true,
            _ => false,
        }
    }
}

} // verus!
