//! The slice of the domain model that the session logic inspects.
//!
//! The full event model lives with the application; the session machine
//! only needs to recognize the READY and RESUMED dispatches and to carry
//! everything else through untouched.

use vstd::prelude::*;
use crate::json::Json;

verus! {

/// Identifier of a chat server, as carried in bulk-member requests.
#[derive(Clone, Copy, PartialEq, Eq, Structural, Debug)]
pub struct ServerId(pub u64);

/// The game shown in a presence update.
pub struct Game {
    pub name: String,
}

impl Game {
    /// A presence entry for playing the named game.
    pub fn playing(name: String) -> (g: Game)
        ensures
            g.name == name,
    {
        Game { name }
    }
}

/// Spec-level image of a `ReadyEvent`.
pub struct ReadyV {
    pub version: u64,
    pub session_id: Seq<char>,
    pub user_id: Seq<char>,
    pub heartbeat_interval: u64,
}

/// The initial state snapshot carried by the READY dispatch.
pub struct ReadyEvent {
    pub version: u64,
    pub session_id: String,
    pub user_id: String,
    pub heartbeat_interval: u64,
}

impl View for ReadyEvent {
    type V = ReadyV;

    open spec fn view(&self) -> ReadyV {
        ReadyV {
            version: self.version,
            session_id: self.session_id@,
            user_id: self.user_id@,
            heartbeat_interval: self.heartbeat_interval,
        }
    }
}

/// Spec-level image of an `Event`.
pub enum EventV {
    Ready(ReadyV),
    Resumed { heartbeat_interval: u64 },
    Unknown(Seq<char>, Json),
}

/// A dispatched application event, as far as the session logic reads it.
///
/// Dispatches other than READY and RESUMED pass through as `Unknown`,
/// keeping their name and raw payload for the caller.
pub enum Event {
    Ready(ReadyEvent),
    Resumed { heartbeat_interval: u64 },
    Unknown(String, Json),
}

impl View for Event {
    type V = EventV;

    open spec fn view(&self) -> EventV {
        match self {
            Event::Ready(r) => EventV::Ready(r@),
            Event::Resumed { heartbeat_interval } => EventV::Resumed {
                heartbeat_interval: *heartbeat_interval,
            },
            Event::Unknown(name, payload) => EventV::Unknown(name@, *payload),
        }
    }
}

/// Spec-level image of a `GatewayEvent`.
pub enum GatewayEventV {
    Dispatch(u64, EventV),
    Heartbeat(u64),
    Reconnect,
    InvalidateSession,
}

/// One inbound gateway frame after demultiplexing.
pub enum GatewayEvent {
    /// An application event with its sequence number.
    Dispatch(u64, Event),
    /// A server-initiated request for an immediate heartbeat.
    Heartbeat(u64),
    /// The server asks for a fresh connection.
    Reconnect,
    /// Any held session id is void.
    InvalidateSession,
}

impl View for GatewayEvent {
    type V = GatewayEventV;

    open spec fn view(&self) -> GatewayEventV {
        match self {
            GatewayEvent::Dispatch(seq, ev) => GatewayEventV::Dispatch(*seq, ev@),
            GatewayEvent::Heartbeat(seq) => GatewayEventV::Heartbeat(*seq),
            GatewayEvent::Reconnect => GatewayEventV::Reconnect,
            GatewayEvent::InvalidateSession => GatewayEventV::InvalidateSession,
        }
    }
}

} // verus!
