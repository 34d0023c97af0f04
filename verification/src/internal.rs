//! Commands flowing from the orchestrator to the keepalive worker.

use vstd::prelude::*;
use crate::json::Json;

verus! {

/// One command on the orchestrator-to-keepalive channel. The channel is
/// FIFO and lossless while the worker lives; the worker applies commands
/// strictly in order.
pub enum Status {
    /// Serialize and send this frame on the transport writer.
    SendMessage(Json),
    /// The orchestrator observed this dispatch sequence number.
    Sequence(u64),
    /// Replace the heartbeat timer with one of this period.
    ChangeInterval(u64),
    /// Adopt the new transport writer that travels beside this command
    /// (the writer itself is I/O state and stays with the caller).
    ChangeSender,
}

} // verus!
