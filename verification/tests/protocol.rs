//! Unit tests for the codec, the keepalive worker and the recovery
//! policy, one concrete case per stated property and error variant.

use discord_gateway::codec::{
    decode_gateway, heartbeat, identify, request_members, resume_payload, set_game_payload,
};
use discord_gateway::connection::{open_step, Connection, HandshakeStep, RecvStep};
use discord_gateway::error::Error;
use discord_gateway::internal::Status;
use discord_gateway::json::Json;
use discord_gateway::keepalive::{Keepalive, Timer, WorkerOut};
use discord_gateway::model::{Event, Game, GatewayEvent, ReadyEvent, ServerId};
use discord_gateway::voice::VoiceBridge;

fn obj(fields: Vec<(&str, Json)>) -> Json {
    Json::Obj(fields.into_iter().map(|(k, v)| (k.to_string(), v)).collect())
}

fn s(x: &str) -> Json {
    Json::Str(x.to_string())
}

fn u(n: u64) -> Json {
    Json::UInt(n)
}

fn get<'a>(j: &'a Json, key: &str) -> &'a Json {
    if let Json::Obj(fields) = j {
        for (k, v) in fields {
            if k == key {
                return v;
            }
        }
    }
    panic!("no field {key}");
}

fn test_ready() -> ReadyEvent {
    ReadyEvent {
        version: 6,
        session_id: "S1".to_string(),
        user_id: "U1".to_string(),
        heartbeat_interval: 41250,
    }
}

// Round trips: each outbound frame decodes back to the fields it was
// built from.

#[test]
fn heartbeat_round_trip() {
    let j = heartbeat(42);
    assert!(matches!(get(&j, "op"), Json::UInt(1)));
    assert!(matches!(get(&j, "d"), Json::UInt(42)));
}

#[test]
fn identify_round_trip() {
    let j = identify("tok", "linux");
    assert!(matches!(get(&j, "op"), Json::UInt(2)));
    let d = get(&j, "d");
    assert!(matches!(get(d, "token"), Json::Str(t) if t == "tok"));
    assert!(matches!(get(d, "v"), Json::UInt(6)));
    let props = get(d, "properties");
    assert!(matches!(get(props, "$os"), Json::Str(t) if t == "linux"));
    assert!(matches!(get(props, "$browser"), Json::Str(t) if t == "Discord library for Rust"));
    assert!(matches!(get(props, "$device"), Json::Str(t) if t == "discord-rs"));
    assert!(matches!(get(props, "$referring_domain"), Json::Str(t) if t.is_empty()));
    assert!(matches!(get(props, "$referrer"), Json::Str(t) if t.is_empty()));
}

#[test]
fn set_game_round_trip() {
    let name = "chess".to_string();
    let j = set_game_payload(Some(&name));
    assert!(matches!(get(&j, "op"), Json::UInt(3)));
    let d = get(&j, "d");
    assert!(matches!(get(d, "idle_since"), Json::Null));
    assert!(matches!(get(get(d, "game"), "name"), Json::Str(t) if t == "chess"));

    let cleared = set_game_payload(None);
    assert!(matches!(get(get(&cleared, "d"), "game"), Json::Null));
}

#[test]
fn resume_round_trip() {
    let j = resume_payload(7, "tok", "S1");
    assert!(matches!(get(&j, "op"), Json::UInt(6)));
    let d = get(&j, "d");
    assert!(matches!(get(d, "seq"), Json::UInt(7)));
    assert!(matches!(get(d, "token"), Json::Str(t) if t == "tok"));
    assert!(matches!(get(d, "session_id"), Json::Str(t) if t == "S1"));
}

#[test]
fn request_members_round_trip() {
    let j = request_members(&[ServerId(3), ServerId(9)]);
    assert!(matches!(get(&j, "op"), Json::UInt(8)));
    let d = get(&j, "d");
    match get(d, "guild_id") {
        Json::Arr(items) => {
            assert!(matches!(items[..], [Json::UInt(3), Json::UInt(9)]));
        }
        _ => panic!("guild_id is an array"),
    }
    assert!(matches!(get(d, "query"), Json::Str(t) if t.is_empty()));
    assert!(matches!(get(d, "limit"), Json::UInt(0)));
}

// Inbound demultiplexing.

#[test]
fn decode_reconnect_and_invalidate() {
    let ev = decode_gateway(obj(vec![("op", u(7))])).unwrap();
    assert!(matches!(ev, GatewayEvent::Reconnect));
    let ev = decode_gateway(obj(vec![("op", u(9)), ("d", Json::Bool(false))])).unwrap();
    assert!(matches!(ev, GatewayEvent::InvalidateSession));
}

#[test]
fn decode_resumed_dispatch() {
    let frame = obj(vec![
        ("op", u(0)),
        ("s", u(12)),
        ("t", s("RESUMED")),
        ("d", obj(vec![("heartbeat_interval", u(9000))])),
    ]);
    match decode_gateway(frame).unwrap() {
        GatewayEvent::Dispatch(12, Event::Resumed { heartbeat_interval }) => {
            assert_eq!(heartbeat_interval, 9000)
        }
        _ => panic!("RESUMED dispatch decodes"),
    }
}

#[test]
fn decode_accepts_any_field_order() {
    let frame = obj(vec![
        ("d", obj(vec![("heartbeat_interval", u(9000))])),
        ("t", s("RESUMED")),
        ("op", u(0)),
        ("s", u(12)),
    ]);
    assert!(matches!(decode_gateway(frame), Ok(GatewayEvent::Dispatch(12, _))));
}

#[test]
fn decode_rejects_malformed() {
    // Not an object.
    assert!(matches!(decode_gateway(u(3)), Err(Error::Decoding(_))));
    // No op code.
    assert!(matches!(decode_gateway(obj(vec![("d", u(1))])), Err(Error::Decoding(_))));
    // Unknown op code.
    assert!(matches!(decode_gateway(obj(vec![("op", u(5))])), Err(Error::Decoding(_))));
    // Dispatch without sequence.
    let frame = obj(vec![("op", u(0)), ("t", s("X")), ("d", Json::Null)]);
    assert!(matches!(decode_gateway(frame), Err(Error::Decoding(_))));
    // READY missing its session id.
    let frame = obj(vec![
        ("op", u(0)),
        ("s", u(1)),
        ("t", s("READY")),
        ("d", obj(vec![("v", u(6)), ("heartbeat_interval", u(100)), ("user", obj(vec![("id", s("U1"))]))])),
    ]);
    assert!(matches!(decode_gateway(frame), Err(Error::Decoding(_))));
}

// Sequence bookkeeping (monotonicity).

#[test]
fn dispatch_records_sequence() {
    let ready = test_ready();
    let mut conn = Connection::new("wss://g", "T", "linux", 1, &ready);
    let ev = GatewayEvent::Dispatch(3, Event::Unknown("A".to_string(), Json::Null));
    let outcome = conn.recv_event(Ok(ev));
    assert!(matches!(outcome.step, RecvStep::Deliver(_)));
    assert!(matches!(outcome.commands[..], [Status::Sequence(3)]));
    assert_eq!(conn.last_sequence, 3);
    let ev = GatewayEvent::Dispatch(7, Event::Unknown("B".to_string(), Json::Null));
    conn.recv_event(Ok(ev));
    assert_eq!(conn.last_sequence, 7);
}

#[test]
fn resumed_dispatch_changes_interval() {
    let ready = test_ready();
    let mut conn = Connection::new("wss://g", "T", "linux", 1, &ready);
    let ev = GatewayEvent::Dispatch(9, Event::Resumed { heartbeat_interval: 5000 });
    let outcome = conn.recv_event(Ok(ev));
    assert!(matches!(
        outcome.commands[..],
        [Status::Sequence(9), Status::ChangeInterval(5000)]
    ));
}

// The worker's heartbeat carries the latest observed sequence.

#[test]
fn heartbeat_carries_latest_sequence() {
    let mut worker = Keepalive::new(1000, 0);
    let cmds = vec![
        Status::Sequence(5),
        Status::SendMessage(heartbeat(5)),
        Status::Sequence(9),
    ];
    let out = worker.cycle(cmds, false, 1000);
    assert!(!out.exit);
    // The queued send goes out first, then the tick's heartbeat with the
    // newest sequence — never the older one.
    let sent: Vec<&Json> = out
        .outs
        .iter()
        .filter_map(|o| match o {
            WorkerOut::Send(m) => Some(m),
            WorkerOut::Adopt => None,
        })
        .collect();
    assert_eq!(sent.len(), 2);
    assert!(matches!(get(sent[1], "op"), Json::UInt(1)));
    assert!(matches!(get(sent[1], "d"), Json::UInt(9)));
    assert_eq!(worker.last_sequence, 9);
}

#[test]
fn worker_exits_exactly_on_disconnect() {
    let mut worker = Keepalive::new(1000, 0);
    let out = worker.cycle(Vec::new(), false, 10);
    assert!(!out.exit);
    let out = worker.cycle(Vec::new(), true, 20);
    assert!(out.exit);
    // No heartbeat goes out on the exit cycle.
    assert!(out.outs.is_empty());
}

#[test]
fn worker_applies_commands_in_order() {
    let mut worker = Keepalive::new(1000, 0);
    let cmds = vec![
        Status::SendMessage(heartbeat(1)),
        Status::ChangeSender,
        Status::SendMessage(heartbeat(2)),
    ];
    let out = worker.cycle(cmds, false, 10);
    assert!(matches!(
        out.outs[..],
        [WorkerOut::Send(_), WorkerOut::Adopt, WorkerOut::Send(_)]
    ));
}

// Timer boundaries, including the zero interval.

#[test]
fn timer_ticks_on_period_boundaries() {
    let mut t = Timer::new(100, 0);
    assert!(!t.check_tick(99));
    assert!(t.check_tick(100));
    assert!(!t.check_tick(150));
    assert!(t.check_tick(250));
}

#[test]
fn zero_interval_never_ticks() {
    let mut t = Timer::new(0, 0);
    assert!(!t.check_tick(0));
    assert!(!t.check_tick(1_000_000));
}

#[test]
fn zero_interval_ready_is_protocol_violation() {
    let mut ready = test_ready();
    ready.heartbeat_interval = 0;
    let step = open_step(GatewayEvent::Dispatch(1, Event::Ready(ready)));
    assert!(matches!(step, HandshakeStep::Failed(Error::Protocol(_))));
}

// Recovery policy: session invalidation and close-code gates.

#[test]
fn invalidate_clears_session_and_queues_identify() {
    let ready = test_ready();
    let mut conn = Connection::new("wss://g", "T", "linux", 1, &ready);
    let outcome = conn.recv_event(Ok(GatewayEvent::InvalidateSession));
    assert!(matches!(outcome.step, RecvStep::Continue));
    assert!(conn.session_id.is_none());
    match &outcome.commands[..] {
        [Status::SendMessage(m)] => {
            // The next outbound frame is an identify, not a resume.
            assert!(matches!(get(m, "op"), Json::UInt(2)));
        }
        _ => panic!("an invalidation queues exactly one identify"),
    }
    // With the session gone, recovery never resumes.
    let outcome = conn.recv_event(Err(Error::Transport));
    assert!(matches!(outcome.step, RecvStep::Reconnect));
}

#[test]
fn close_4006_never_resumes() {
    let ready = test_ready();
    let mut conn = Connection::new("wss://g", "T", "linux", 1, &ready);
    let outcome = conn.recv_event(Err(Error::Closed(Some(4006), Vec::new())));
    assert!(matches!(outcome.step, RecvStep::Reconnect));
}

#[test]
fn close_4000_with_session_resumes_first() {
    let ready = test_ready();
    let mut conn = Connection::new("wss://g", "T", "linux", 1, &ready);
    let outcome = conn.recv_event(Err(Error::Closed(Some(4000), Vec::new())));
    match outcome.step {
        RecvStep::Resume(sid) => assert_eq!(sid, "S1"),
        _ => panic!("close 4000 with a live session tries a resume"),
    }
}

#[test]
fn unrecoverable_errors_surface() {
    let ready = test_ready();
    let mut conn = Connection::new("wss://g", "T", "linux", 1, &ready);
    let outcome = conn.recv_event(Err(Error::Decoding("bad frame")));
    assert!(matches!(outcome.step, RecvStep::Fail(Error::Decoding(_))));
}

// Only the worker writes: the orchestrator's steps yield commands for
// the worker's queue, never direct writes; the mock writer below is
// touched solely by the worker's cycle outputs.

#[test]
fn only_the_worker_writes() {
    let ready = test_ready();
    let mut conn = Connection::new("wss://g", "T", "linux", 1, &ready);
    let mut writer: Vec<Json> = Vec::new();
    let mut worker = Keepalive::new(41250, 0);

    let mut queue: Vec<Status> = Vec::new();
    let inbound = vec![
        GatewayEvent::Heartbeat(42),
        GatewayEvent::Dispatch(2, Event::Unknown("A".to_string(), Json::Null)),
    ];
    for ev in inbound {
        let outcome = conn.recv_event(Ok(ev));
        // recv_event only ever queues commands...
        queue.extend(outcome.commands);
    }
    // ...and every write to the transport happens in the worker's cycle.
    let out = worker.cycle(queue, false, 10);
    for o in out.outs {
        if let WorkerOut::Send(m) = o {
            writer.push(m);
        }
    }
    assert_eq!(writer.len(), 1);
    assert!(matches!(get(&writer[0], "op"), Json::UInt(1)));
    assert!(matches!(get(&writer[0], "d"), Json::UInt(42)));
    assert_eq!(worker.last_sequence, 2);
}

// Presence and member-request commands.

#[test]
fn set_game_commands() {
    let ready = test_ready();
    let conn = Connection::new("wss://g", "T", "linux", 1, &ready);
    match conn.set_game_name("chess".to_string()) {
        Status::SendMessage(m) => {
            assert!(matches!(get(&m, "op"), Json::UInt(3)));
            assert!(matches!(get(get(get(&m, "d"), "game"), "name"), Json::Str(t) if t == "chess"));
        }
        _ => panic!("set_game_name queues a send"),
    }
    match conn.set_game(None) {
        Status::SendMessage(m) => {
            assert!(matches!(get(get(&m, "d"), "game"), Json::Null));
        }
        _ => panic!("set_game queues a send"),
    }
    match conn.set_game(Some(Game::playing("go".to_string()))) {
        Status::SendMessage(m) => {
            assert!(matches!(get(get(get(&m, "d"), "game"), "name"), Json::Str(t) if t == "go"));
        }
        _ => panic!("set_game queues a send"),
    }
}

#[test]
fn download_members_command() {
    let ready = test_ready();
    let conn = Connection::new("wss://g", "T", "linux", 1, &ready);
    match conn.__download_members(&[ServerId(11)]) {
        Status::SendMessage(m) => assert!(matches!(get(&m, "op"), Json::UInt(8))),
        _ => panic!("a member download queues a send"),
    }
}

// The voice bridge: one handle per server, dropped on request.

#[test]
fn voice_handles_are_per_server() {
    let mut bridge = VoiceBridge::new("U1".to_string());
    let a = bridge.voice(ServerId(1));
    let b = bridge.voice(ServerId(2));
    let a_again = bridge.voice(ServerId(1));
    assert_eq!(a, a_again);
    assert_ne!(a, b);
    assert_eq!(bridge.handles.len(), 2);
    assert_eq!(bridge.handles[a].user_id, "U1");
    bridge.drop_voice(ServerId(1));
    assert_eq!(bridge.handles.len(), 1);
    assert_eq!(bridge.handles[0].server_id, ServerId(2));
    // Dropping an absent handle is a no-op.
    bridge.drop_voice(ServerId(1));
    assert_eq!(bridge.handles.len(), 1);
}
