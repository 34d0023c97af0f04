//! Encoding and decoding of gateway envelopes.
//!
//! Outbound frames are built here as structural [`Json`] values; each
//! encoder's contract states that the frame decodes back to exactly the
//! fields it was built from (`frame_of`), which is the round-trip law for
//! the opcodes this client originates. Inbound frames are demultiplexed by
//! [`decode_gateway`], whose contract is an if-and-only-if against the
//! spec-level parser `gateway_of`.

use vstd::prelude::*;
use vstd::string::StringExecFns;
use crate::error::Error;
use crate::json::{Json, lookup, json_get};
use crate::model::{ServerId, ReadyV, ReadyEvent, EventV, Event, GatewayEventV, GatewayEvent};

verus! {

/// Protocol version agreed with the gateway at compile time.
pub const GATEWAY_VERSION: u64 = 6;

/// Spec-level image of an outbound control frame: the structural fields
/// of each opcode this client originates.
pub enum FrameV {
    Heartbeat { seq: u64 },
    Identify { token: Seq<char>, os: Seq<char> },
    SetGame { game: Option<Seq<char>> },
    Resume { seq: u64, token: Seq<char>, session_id: Seq<char> },
    RequestMembers { guild_ids: Seq<u64> },
}

/// The browser name reported in the identify properties.
pub open spec fn browser_name() -> Seq<char> {
    "Discord library for Rust"@
}

/// The device name reported in the identify properties.
pub open spec fn device_name() -> Seq<char> {
    "discord-rs"@
}

/// Reads an identify payload (the `d` of an op-2 frame) in canonical
/// field order, yielding the token and operating-system name.
pub open spec fn identify_of(d: Json) -> Option<FrameV> {
    match d {
        Json::Obj(ds) => {
            if ds@.len() == 3 && ds@[0].0@ == "token"@ && ds@[1].0@ == "properties"@
                && ds@[2].0@ == "v"@ && ds@[2].1 == Json::UInt(GATEWAY_VERSION) {
                match ds@[0].1 {
                    Json::Str(token) => match ds@[1].1 {
                        Json::Obj(ps) => {
                            if ps@.len() == 5 && ps@[0].0@ == "$os"@
                                && ps@[1].0@ == "$browser"@
                                && (ps@[1].1 matches Json::Str(b) && b@ == browser_name())
                                && ps@[2].0@ == "$device"@
                                && (ps@[2].1 matches Json::Str(dv) && dv@ == device_name())
                                && ps@[3].0@ == "$referring_domain"@
                                && (ps@[3].1 matches Json::Str(rd) && rd@ == Seq::<char>::empty())
                                && ps@[4].0@ == "$referrer"@
                                && (ps@[4].1 matches Json::Str(rf) && rf@ == Seq::<char>::empty()) {
                                match ps@[0].1 {
                                    Json::Str(os) => Some(FrameV::Identify { token: token@, os: os@ }),
                                    _ => None,
                                }
                            } else {
                                None
                            }
                        },
                        _ => None,
                    },
                    _ => None,
                }
            } else {
                None
            }
        },
        _ => None,
    }
}

/// Reads a presence payload (the `d` of an op-3 frame).
pub open spec fn set_game_of(d: Json) -> Option<FrameV> {
    match d {
        Json::Obj(ds) => {
            if ds@.len() == 2 && ds@[0].0@ == "idle_since"@ && ds@[0].1 == Json::Null
                && ds@[1].0@ == "game"@ {
                match ds@[1].1 {
                    Json::Null => Some(FrameV::SetGame { game: None }),
                    Json::Obj(gs) => {
                        if gs@.len() == 1 && gs@[0].0@ == "name"@ {
                            match gs@[0].1 {
                                Json::Str(n) => Some(FrameV::SetGame { game: Some(n@) }),
                                _ => None,
                            }
                        } else {
                            None
                        }
                    },
                    _ => None,
                }
            } else {
                None
            }
        },
        _ => None,
    }
}

/// Reads a resume payload (the `d` of an op-6 frame).
pub open spec fn resume_of(d: Json) -> Option<FrameV> {
    match d {
        Json::Obj(ds) => {
            if ds@.len() == 3 && ds@[0].0@ == "seq"@ && ds@[1].0@ == "token"@
                && ds@[2].0@ == "session_id"@ {
                match (ds@[0].1, ds@[1].1, ds@[2].1) {
                    (Json::UInt(seq), Json::Str(token), Json::Str(sid)) => Some(
                        FrameV::Resume { seq, token: token@, session_id: sid@ },
                    ),
                    _ => None,
                }
            } else {
                None
            }
        },
        _ => None,
    }
}

/// True when every element is an integer.
pub open spec fn all_uints(items: Seq<Json>) -> bool {
    forall|i: int| 0 <= i < items.len() ==> #[trigger] items[i] matches Json::UInt(_)
}

/// The integers held by a sequence of `Json::UInt` values.
pub open spec fn uint_values(items: Seq<Json>) -> Seq<u64> {
    Seq::new(items.len(), |i: int| items[i]->UInt_0)
}

/// Reads a bulk-member-request payload (the `d` of an op-8 frame).
pub open spec fn members_of(d: Json) -> Option<FrameV> {
    match d {
        Json::Obj(ds) => {
            if ds@.len() == 3 && ds@[0].0@ == "guild_id"@ && ds@[1].0@ == "query"@
                && (ds@[1].1 matches Json::Str(q) && q@ == Seq::<char>::empty())
                && ds@[2].0@ == "limit"@ && ds@[2].1 == Json::UInt(0) {
                match ds@[0].1 {
                    Json::Arr(items) => {
                        if all_uints(items@) {
                            Some(FrameV::RequestMembers { guild_ids: uint_values(items@) })
                        } else {
                            None
                        }
                    },
                    _ => None,
                }
            } else {
                None
            }
        },
        _ => None,
    }
}

/// Reads an outbound control frame in its canonical shape back into its
/// structural fields. The encoders below each ensure that their output
/// maps to exactly the fields they were given, so encoding followed by
/// this reading is the identity: the round-trip law for opcodes
/// 1, 2, 3, 6 and 8.
pub open spec fn frame_of(j: Json) -> Option<FrameV> {
    match j {
        Json::Obj(fs) => {
            if fs@.len() == 2 && fs@[0].0@ == "op"@ && fs@[1].0@ == "d"@ {
                match fs@[0].1 {
                    Json::UInt(op) => {
                        if op == 1 {
                            match fs@[1].1 {
                                Json::UInt(seq) => Some(FrameV::Heartbeat { seq }),
                                _ => None,
                            }
                        } else if op == 2 {
                            identify_of(fs@[1].1)
                        } else if op == 3 {
                            set_game_of(fs@[1].1)
                        } else if op == 6 {
                            resume_of(fs@[1].1)
                        } else if op == 8 {
                            members_of(fs@[1].1)
                        } else {
                            None
                        }
                    },
                    _ => None,
                }
            } else {
                None
            }
        },
        _ => None,
    }
}

/// Wraps a payload into the `{op, d}` envelope.
fn envelope(op: u64, d: Json) -> (j: Json)
    ensures
        (j matches Json::Obj(fs) && fs@.len() == 2
            && fs@[0].0@ == "op"@ && fs@[0].1 == Json::UInt(op)
            && fs@[1].0@ == "d"@ && fs@[1].1 == d),
{
    let mut fs: Vec<(String, Json)> = Vec::new();
    fs.push((String::from_str("op"), Json::UInt(op)));
    fs.push((String::from_str("d"), d));
    Json::Obj(fs)
}

/// Builds the op-1 heartbeat frame carrying the given sequence number.
pub fn heartbeat(seq: u64) -> (j: Json)
    ensures
        frame_of(j) == Some(FrameV::Heartbeat { seq }),
{
    envelope(1, Json::UInt(seq))
}

/// Builds the op-2 identify frame: a fresh-session handshake for the
/// given token, reporting the given operating-system name.
pub fn identify(token: &str, os: &str) -> (j: Json)
    ensures
        frame_of(j) == Some(FrameV::Identify { token: token@, os: os@ }),
{
    let mut ps: Vec<(String, Json)> = Vec::new();
    ps.push((String::from_str("$os"), Json::Str(String::from_str(os))));
    ps.push((String::from_str("$browser"), Json::Str(String::from_str("Discord library for Rust"))));
    ps.push((String::from_str("$device"), Json::Str(String::from_str("discord-rs"))));
    ps.push((String::from_str("$referring_domain"), Json::Str(String::new())));
    ps.push((String::from_str("$referrer"), Json::Str(String::new())));
    let mut ds: Vec<(String, Json)> = Vec::new();
    ds.push((String::from_str("token"), Json::Str(String::from_str(token))));
    ds.push((String::from_str("properties"), Json::Obj(ps)));
    ds.push((String::from_str("v"), Json::UInt(GATEWAY_VERSION)));
    envelope(2, Json::Obj(ds))
}

/// Builds the op-3 presence frame for the given game name, or a cleared
/// presence when none is given.
pub fn set_game_payload(game_name: Option<&String>) -> (j: Json)
    ensures
        frame_of(j) == Some(FrameV::SetGame {
            game: match game_name {
                Some(n) => Some(n@),
                None => None,
            },
        }),
{
    let game: Json = match game_name {
        Some(n) => {
            let mut gs: Vec<(String, Json)> = Vec::new();
            gs.push((String::from_str("name"), Json::Str(n.clone())));
            Json::Obj(gs)
        },
        None => Json::Null,
    };
    let mut ds: Vec<(String, Json)> = Vec::new();
    ds.push((String::from_str("idle_since"), Json::Null));
    ds.push((String::from_str("game"), game));
    envelope(3, Json::Obj(ds))
}

/// Builds the op-6 resume frame for re-attaching to an existing session.
pub fn resume_payload(seq: u64, token: &str, session_id: &str) -> (j: Json)
    ensures
        frame_of(j) == Some(FrameV::Resume {
            seq,
            token: token@,
            session_id: session_id@,
        }),
{
    let mut ds: Vec<(String, Json)> = Vec::new();
    ds.push((String::from_str("seq"), Json::UInt(seq)));
    ds.push((String::from_str("token"), Json::Str(String::from_str(token))));
    ds.push((String::from_str("session_id"), Json::Str(String::from_str(session_id))));
    envelope(6, Json::Obj(ds))
}

/// The server ids of a member request, as plain integers.
pub open spec fn member_ids(servers: Seq<ServerId>) -> Seq<u64> {
    Seq::new(servers.len(), |i: int| servers[i].0)
}

/// Builds the op-8 bulk-member-request frame for the given servers.
pub fn request_members(servers: &[ServerId]) -> (j: Json)
    ensures
        frame_of(j) == Some(FrameV::RequestMembers { guild_ids: member_ids(servers@) }),
{
    let n = servers.len();
    let mut items: Vec<Json> = Vec::new();
    let mut i: usize = 0;
    while i < n
        invariant
            i <= n,
            n == servers@.len(),
            items@.len() == i,
            forall|k: int| 0 <= k < i ==> items@[k] == Json::UInt(servers@[k].0),
        decreases n - i,
    {
        items.push(Json::UInt(servers[i].0));
        i = i + 1;
    }
    proof {
        assert(all_uints(items@));
        assert(uint_values(items@) =~= member_ids(servers@));
    }
    let mut ds: Vec<(String, Json)> = Vec::new();
    ds.push((String::from_str("guild_id"), Json::Arr(items)));
    ds.push((String::from_str("query"), Json::Str(String::new())));
    ds.push((String::from_str("limit"), Json::UInt(0)));
    envelope(8, Json::Obj(ds))
}

/// Reads the READY snapshot out of a dispatch payload, whatever order
/// its fields arrive in.
pub open spec fn ready_of(d: Json) -> Option<ReadyV> {
    match d {
        Json::Obj(ds) => {
            match (
                lookup(ds@, "v"@),
                lookup(ds@, "session_id"@),
                lookup(ds@, "heartbeat_interval"@),
                lookup(ds@, "user"@),
            ) {
                (
                    Some(Json::UInt(version)),
                    Some(Json::Str(sid)),
                    Some(Json::UInt(hi)),
                    Some(Json::Obj(us)),
                ) => {
                    match lookup(us@, "id"@) {
                        Some(Json::Str(uid)) => Some(
                            ReadyV {
                                version,
                                session_id: sid@,
                                user_id: uid@,
                                heartbeat_interval: hi,
                            },
                        ),
                        _ => None,
                    }
                },
                _ => None,
            }
        },
        _ => None,
    }
}

/// Classifies a dispatched event by its name: READY and RESUMED are
/// recognized, everything else passes through with its payload.
pub open spec fn event_of(name: Seq<char>, d: Json) -> Option<EventV> {
    if name == "READY"@ {
        match ready_of(d) {
            Some(r) => Some(EventV::Ready(r)),
            None => None,
        }
    } else if name == "RESUMED"@ {
        match d {
            Json::Obj(ds) => {
                match lookup(ds@, "heartbeat_interval"@) {
                    Some(Json::UInt(hi)) => Some(EventV::Resumed { heartbeat_interval: hi }),
                    _ => None,
                }
            },
            _ => None,
        }
    } else {
        Some(EventV::Unknown(name, d))
    }
}

/// Demultiplexes one inbound envelope: a dispatch with sequence and named
/// event, a heartbeat request, a reconnect request, or a session
/// invalidation. Anything else does not decode.
pub open spec fn gateway_of(j: Json) -> Option<GatewayEventV> {
    match j {
        Json::Obj(fs) => {
            match lookup(fs@, "op"@) {
                Some(Json::UInt(op)) => {
                    if op == 0 {
                        match (lookup(fs@, "s"@), lookup(fs@, "t"@), lookup(fs@, "d"@)) {
                            (Some(Json::UInt(seq)), Some(Json::Str(t)), Some(d)) => {
                                match event_of(t@, d) {
                                    Some(ev) => Some(GatewayEventV::Dispatch(seq, ev)),
                                    None => None,
                                }
                            },
                            _ => None,
                        }
                    } else if op == 1 {
                        match lookup(fs@, "d"@) {
                            Some(Json::UInt(seq)) => Some(GatewayEventV::Heartbeat(seq)),
                            _ => None,
                        }
                    } else if op == 7 {
                        Some(GatewayEventV::Reconnect)
                    } else if op == 9 {
                        Some(GatewayEventV::InvalidateSession)
                    } else {
                        None
                    }
                },
                _ => None,
            }
        },
        _ => None,
    }
}

/// Remove the first field bound to `key` from an object's field list and
/// hand its value out, owned.
fn json_take(fields: &mut Vec<(String, Json)>, key: &String) -> (r: Option<Json>)
    ensures
        match r {
            Some(v) => lookup(old(fields)@, key@) == Some(v),
            None => lookup(old(fields)@, key@) is None,
        },
{
    let n = fields.len();
    let mut i: usize = 0;
    proof {
        assert(fields@.skip(0) =~= fields@);
    }
    while i < n
        invariant
            i <= n,
            n == fields@.len(),
            fields@ == old(fields)@,
            lookup(fields@, key@) == lookup(fields@.skip(i as int), key@),
        decreases n - i,
    {
        proof {
            assert(fields@.skip(i as int)[0] == fields@[i as int]);
        }
        if fields[i].0 == *key {
            let (_k, v) = fields.remove(i);
            return Some(v);
        }
        proof {
            assert(fields@.skip(i as int).skip(1) =~= fields@.skip(i + 1));
        }
        i = i + 1;
    }
    proof {
        assert(fields@.skip(n as int).len() == 0);
    }
    None
}

/// Decodes the payload of a named dispatch into the event the session
/// logic works with. Succeeds exactly when `event_of` does.
fn decode_event(name: String, d: Json) -> (r: Result<Event, Error>)
    ensures
        r matches Ok(ev) ==> event_of(name@, d) == Some(ev@),
        r matches Err(e) ==> event_of(name@, d) is None && e matches Error::Decoding(_),
{
    if name == String::from_str("READY") {
        match &d {
            Json::Obj(ds) => {
                let version: u64 = match json_get(ds, &String::from_str("v")) {
                    Some(Json::UInt(n)) => *n,
                    _ => return Err(Error::Decoding("READY payload without version")),
                };
                let session_id: String = match json_get(ds, &String::from_str("session_id")) {
                    Some(Json::Str(s)) => s.clone(),
                    _ => return Err(Error::Decoding("READY payload without session id")),
                };
                let heartbeat_interval: u64 = match json_get(
                    ds,
                    &String::from_str("heartbeat_interval"),
                ) {
                    Some(Json::UInt(n)) => *n,
                    _ => return Err(Error::Decoding("READY payload without heartbeat interval")),
                };
                let user_id: String = match json_get(ds, &String::from_str("user")) {
                    Some(Json::Obj(us)) => {
                        match json_get(us, &String::from_str("id")) {
                            Some(Json::Str(s)) => s.clone(),
                            _ => return Err(Error::Decoding("READY payload without user id")),
                        }
                    },
                    _ => return Err(Error::Decoding("READY payload without user")),
                };
                Ok(Event::Ready(ReadyEvent { version, session_id, user_id, heartbeat_interval }))
            },
            _ => Err(Error::Decoding("READY payload is not an object")),
        }
    } else if name == String::from_str("RESUMED") {
        match &d {
            Json::Obj(ds) => {
                match json_get(ds, &String::from_str("heartbeat_interval")) {
                    Some(Json::UInt(n)) => Ok(Event::Resumed { heartbeat_interval: *n }),
                    _ => Err(Error::Decoding("RESUMED payload without heartbeat interval")),
                }
            },
            _ => Err(Error::Decoding("RESUMED payload is not an object")),
        }
    } else {
        Ok(Event::Unknown(name, d))
    }
}

/// Demultiplexes one inbound gateway frame.
///
/// Returns `Ok` exactly when the frame fits the envelope that
/// `gateway_of` describes, and a `Decoding` error otherwise.
pub fn decode_gateway(j: Json) -> (r: Result<GatewayEvent, Error>)
    ensures
        r matches Ok(ev) ==> gateway_of(j) == Some(ev@),
        r matches Err(e) ==> gateway_of(j) is None && e matches Error::Decoding(_),
{
    match j {
        Json::Obj(mut fs) => {
            let op: u64 = match json_get(&fs, &String::from_str("op")) {
                Some(Json::UInt(n)) => *n,
                _ => return Err(Error::Decoding("envelope without op code")),
            };
            if op == 0 {
                let seq: u64 = match json_get(&fs, &String::from_str("s")) {
                    Some(Json::UInt(n)) => *n,
                    _ => return Err(Error::Decoding("dispatch without sequence")),
                };
                let name: String = match json_get(&fs, &String::from_str("t")) {
                    Some(Json::Str(t)) => t.clone(),
                    _ => return Err(Error::Decoding("dispatch without event name")),
                };
                let d: Json = match json_take(&mut fs, &String::from_str("d")) {
                    Some(d) => d,
                    None => return Err(Error::Decoding("dispatch without payload")),
                };
                match decode_event(name, d) {
                    Ok(ev) => Ok(GatewayEvent::Dispatch(seq, ev)),
                    Err(e) => Err(e),
                }
            } else if op == 1 {
                match json_get(&fs, &String::from_str("d")) {
                    Some(Json::UInt(n)) => Ok(GatewayEvent::Heartbeat(*n)),
                    _ => return Err(Error::Decoding("heartbeat request without sequence")),
                }
            } else if op == 7 {
                Ok(GatewayEvent::Reconnect)
            } else if op == 9 {
                Ok(GatewayEvent::InvalidateSession)
            } else {
                Err(Error::Decoding("unknown op code"))
            }
        },
        _ => Err(Error::Decoding("envelope is not an object")),
    }
}

} // verus!
