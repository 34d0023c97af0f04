//! The gateway session orchestrator.
//!
//! A [`Connection`] holds the session state: endpoint, token, resumable
//! session id and last dispatch sequence. Every decision of the original
//! read loop is a step function here with a contract — which event to
//! deliver, which commands to queue for the keepalive worker, and whether
//! recovery goes through a resume or a fresh identify. The caller owns
//! the transport, performs reads, sends and sleeps, and feeds their
//! results back in.

use vstd::prelude::*;
use vstd::string::StringExecFns;
use crate::codec::{
    frame_of, heartbeat, identify, member_ids, request_members, set_game_payload, FrameV,
    GATEWAY_VERSION,
};
use crate::error::Error;
use crate::internal::Status;
use crate::model::{Event, Game, GatewayEvent, ReadyEvent, ServerId};

verus! {

/// One decimal digit as a character.
pub open spec fn digit_char(d: nat) -> char {
    if d == 0 {
        '0'
    } else if d == 1 {
        '1'
    } else if d == 2 {
        '2'
    } else if d == 3 {
        '3'
    } else if d == 4 {
        '4'
    } else if d == 5 {
        '5'
    } else if d == 6 {
        '6'
    } else if d == 7 {
        '7'
    } else if d == 8 {
        '8'
    } else {
        '9'
    }
}

/// The decimal digits of `n`, most significant first.
pub open spec fn dec_digits(n: nat) -> Seq<char>
    decreases n,
{
    if n < 10 {
        seq![digit_char(n)]
    } else {
        dec_digits(n / 10).push(digit_char(n % 10))
    }
}

/// The single-character string for one decimal digit.
fn digit_str(d: u64) -> (s: &'static str)
    requires
        d < 10,
    ensures
        s@ == seq![digit_char(d as nat)],
{
    if d == 0 {
        proof {
            reveal_strlit("0");
            assert("0"@ =~= seq![digit_char(0)]);
        }
        "0"
    } else if d == 1 {
        proof {
            reveal_strlit("1");
            assert("1"@ =~= seq![digit_char(1)]);
        }
        "1"
    } else if d == 2 {
        proof {
            reveal_strlit("2");
            assert("2"@ =~= seq![digit_char(2)]);
        }
        "2"
    } else if d == 3 {
        proof {
            reveal_strlit("3");
            assert("3"@ =~= seq![digit_char(3)]);
        }
        "3"
    } else if d == 4 {
        proof {
            reveal_strlit("4");
            assert("4"@ =~= seq![digit_char(4)]);
        }
        "4"
    } else if d == 5 {
        proof {
            reveal_strlit("5");
            assert("5"@ =~= seq![digit_char(5)]);
        }
        "5"
    } else if d == 6 {
        proof {
            reveal_strlit("6");
            assert("6"@ =~= seq![digit_char(6)]);
        }
        "6"
    } else if d == 7 {
        proof {
            reveal_strlit("7");
            assert("7"@ =~= seq![digit_char(7)]);
        }
        "7"
    } else if d == 8 {
        proof {
            reveal_strlit("8");
            assert("8"@ =~= seq![digit_char(8)]);
        }
        "8"
    } else {
        proof {
            reveal_strlit("9");
            assert("9"@ =~= seq![digit_char(9)]);
        }
        "9"
    }
}

/// Renders `n` in decimal.
fn dec_str(n: u64) -> (s: String)
    ensures
        s@ == dec_digits(n as nat),
    decreases n,
{
    if n < 10 {
        String::from_str(digit_str(n))
    } else {
        let mut s = dec_str(n / 10);
        s.append(digit_str(n % 10));
        proof {
            assert(s@ =~= dec_digits((n / 10) as nat).push(digit_char((n % 10) as nat)));
        }
        s
    }
}

/// The URL a fresh transport is opened against: the configured endpoint
/// with the protocol version appended.
pub fn gateway_request_url(base_url: &str) -> (u: String)
    ensures
        u@ == base_url@ + "?v="@ + dec_digits(GATEWAY_VERSION as nat),
{
    let mut u = String::from_str(base_url);
    u.append("?v=");
    let v = dec_str(GATEWAY_VERSION);
    u.append(v.as_str());
    u
}

/// Session state of one gateway connection.
///
/// The transport reader, the command channel and the worker thread are
/// the caller's; this is everything the recovery policy depends on.
pub struct Connection {
    /// Last known gateway endpoint, without the version suffix.
    pub ws_url: String,
    /// The authentication token.
    pub token: String,
    /// Operating-system name reported in identify properties.
    pub os: String,
    /// Present exactly while a resumable session exists.
    pub session_id: Option<String>,
    /// Sequence of the last dispatch observed; 0 until the first.
    pub last_sequence: u64,
}

/// Fields that never change across steps of one connection.
pub open spec fn same_identity(a: Connection, b: Connection) -> bool {
    a.ws_url == b.ws_url && a.token == b.token && a.os == b.os
}

/// What the open or resume handshake loop does with one inbound frame.
pub enum HandshakeStep {
    /// The READY dispatch arrived: its sequence and snapshot.
    Done(u64, ReadyEvent),
    /// The session was invalidated mid-handshake: send identify again
    /// and keep reading.
    Reidentify,
    /// An unexpected frame: surface the error.
    Failed(Error),
}

/// What `recv_event` asks the caller to do next.
pub enum RecvStep {
    /// Hand this event to the application.
    Deliver(Event),
    /// Read the next frame and step again.
    Continue,
    /// Try to resume the session with this id; fall back to the
    /// reconnect schedule if that fails.
    Resume(String),
    /// Run the reconnect schedule.
    Reconnect,
    /// Surface this error.
    Fail(Error),
}

/// One step of the read loop: what to do next, and the commands to
/// queue on the keepalive channel, in order.
pub struct RecvOutcome {
    pub step: RecvStep,
    pub commands: Vec<Status>,
}

/// What one frame during the resume handshake leads to.
pub enum ResumeStep {
    /// A dispatch arrived: it is the first resumed event.
    Done(Event),
    /// The session was invalidated mid-resume: send identify again and
    /// keep reading.
    Reidentify,
    /// An unexpected frame: surface the error.
    Failed(Error),
}

/// One step of the resume handshake.
pub struct ResumeOutcome {
    pub step: ResumeStep,
    pub commands: Vec<Status>,
}

/// One action of the reconnect schedule.
#[derive(Clone, Copy, PartialEq, Eq, Structural, Debug)]
pub enum ReconnectAction {
    /// Open a fresh connection against the cached gateway URL.
    TryCached,
    /// Pause for this many milliseconds.
    Wait(u64),
    /// Ask the REST collaborator for a fresh gateway URL and connect
    /// against that; a failure here surfaces to the caller.
    FetchFresh,
}

/// True when the recovery policy answers `e` with a resume: the error
/// must be transport-level or a close whose code is neither 1000 nor
/// 4006, and a resumable session id must be held.
pub open spec fn wants_resume(session_id: Option<String>, e: Error) -> bool {
    match e {
        Error::Transport => session_id is Some,
        Error::Closed(code, _) => !(code == Some(1000u16)) && !(code == Some(4006u16))
            && session_id is Some,
        _ => false,
    }
}

/// The handshake loop of a fresh connection, one frame at a time: only
/// a READY dispatch completes it, a session invalidation asks for a new
/// identify, anything else is a protocol violation. A READY announcing a
/// heartbeat interval of zero is rejected as a protocol violation as
/// well, so the worker's timer period is never zero.
pub fn open_step(ev: GatewayEvent) -> (r: HandshakeStep)
    ensures
        match ev {
            GatewayEvent::Dispatch(seq, Event::Ready(rd)) => {
                if rd.heartbeat_interval == 0 {
                    r matches HandshakeStep::Failed(e) && e matches Error::Protocol(_)
                } else {
                    r == HandshakeStep::Done(seq, rd)
                }
            },
            GatewayEvent::InvalidateSession => r == HandshakeStep::Reidentify,
            _ => r matches HandshakeStep::Failed(e) && e matches Error::Protocol(_),
        },
{
    match ev {
        GatewayEvent::Dispatch(seq, Event::Ready(rd)) => {
            if rd.heartbeat_interval == 0 {
                HandshakeStep::Failed(Error::Protocol("heartbeat interval of zero"))
            } else {
                HandshakeStep::Done(seq, rd)
            }
        },
        GatewayEvent::InvalidateSession => HandshakeStep::Reidentify,
        _ => HandshakeStep::Failed(Error::Protocol("unexpected event during connection open")),
    }
}

impl Connection {
    /// Session state right after a completed open handshake.
    pub fn new(base_url: &str, token: &str, os: &str, last_sequence: u64, ready: &ReadyEvent) -> (c:
        Connection)
        ensures
            c.ws_url@ == base_url@,
            c.token@ == token@,
            c.os@ == os@,
            c.session_id matches Some(s) && s@ == ready.session_id@,
            c.last_sequence == last_sequence,
    {
        Connection {
            ws_url: String::from_str(base_url),
            token: String::from_str(token),
            os: String::from_str(os),
            session_id: Some(ready.session_id.clone()),
            last_sequence,
        }
    }

    /// Resume when a session id is held, reconnect otherwise.
    fn resume_or_reconnect(&self) -> (r: RecvStep)
        ensures
            match self.session_id {
                Some(s) => r == RecvStep::Resume(s),
                None => r == RecvStep::Reconnect,
            },
    {
        match &self.session_id {
            Some(s) => RecvStep::Resume(s.clone()),
            None => RecvStep::Reconnect,
        }
    }

    /// One step of the read loop, on one inbound frame or read error.
    ///
    /// A dispatch is always delivered (the read-again loop stops at the
    /// first dispatch); its sequence is recorded and forwarded, so the
    /// recorded sequence never decreases as long as the server reports
    /// non-decreasing sequences. A server heartbeat request is answered
    /// through the worker. A session invalidation clears the session id
    /// and queues a fresh identify — never a resume. A recoverable read
    /// error goes to resume exactly when `wants_resume` holds, else to
    /// reconnect; other errors surface.
    pub fn recv_event(&mut self, incoming: Result<GatewayEvent, Error>) -> (r: RecvOutcome)
        ensures
            same_identity(*old(self), *final(self)),
            // The caller's read-again loop stops at the first dispatch:
            // only a heartbeat request or a session invalidation asks
            // for another read.
            (r.step matches RecvStep::Continue) <==> (incoming matches Ok(
                GatewayEvent::Heartbeat(_),
            ) || incoming matches Ok(GatewayEvent::InvalidateSession)),
            match incoming {
                Ok(GatewayEvent::Dispatch(seq, ev)) => {
                    &&& final(self).last_sequence == seq
                    &&& (old(self).last_sequence <= seq
                        ==> old(self).last_sequence <= final(self).last_sequence)
                    &&& final(self).session_id == old(self).session_id
                    &&& r.step == RecvStep::Deliver(ev)
                    &&& (ev matches Event::Resumed { heartbeat_interval } ==> r.commands@ == seq![
                        Status::Sequence(seq),
                        Status::ChangeInterval(heartbeat_interval),
                    ])
                    &&& (!(ev matches Event::Resumed { .. }) ==> r.commands@ == seq![
                        Status::Sequence(seq),
                    ])
                },
                Ok(GatewayEvent::Heartbeat(seq)) => {
                    &&& *final(self) == *old(self)
                    &&& r.step == RecvStep::Continue
                    &&& r.commands@.len() == 1
                    &&& (r.commands@[0] matches Status::SendMessage(m) && frame_of(m) == Some(
                        FrameV::Heartbeat { seq },
                    ))
                },
                Ok(GatewayEvent::Reconnect) => {
                    &&& *final(self) == *old(self)
                    &&& r.step == RecvStep::Reconnect
                    &&& r.commands@.len() == 0
                },
                Ok(GatewayEvent::InvalidateSession) => {
                    &&& final(self).session_id is None
                    &&& final(self).last_sequence == old(self).last_sequence
                    &&& r.step == RecvStep::Continue
                    &&& r.commands@.len() == 1
                    &&& (r.commands@[0] matches Status::SendMessage(m) && frame_of(m) == Some(
                        FrameV::Identify { token: old(self).token@, os: old(self).os@ },
                    ))
                },
                Err(e) => {
                    &&& *final(self) == *old(self)
                    &&& r.commands@.len() == 0
                    &&& (wants_resume(old(self).session_id, e) ==> (r.step matches RecvStep::Resume(
                        s,
                    ) && old(self).session_id == Some(s)))
                    &&& ((!wants_resume(old(self).session_id, e) && e.is_recoverable())
                        ==> r.step == RecvStep::Reconnect)
                    &&& (!e.is_recoverable() ==> r.step == RecvStep::Fail(e))
                },
            },
    {
        match incoming {
            Ok(GatewayEvent::Dispatch(seq, ev)) => {
                self.last_sequence = seq;
                let mut commands: Vec<Status> = Vec::new();
                commands.push(Status::Sequence(seq));
                if let Event::Resumed { heartbeat_interval } = &ev {
                    commands.push(Status::ChangeInterval(*heartbeat_interval));
                    proof {
                        assert(commands@ =~= seq![
                            Status::Sequence(seq),
                            Status::ChangeInterval(*heartbeat_interval),
                        ]);
                    }
                } else {
                    proof {
                        assert(commands@ =~= seq![Status::Sequence(seq)]);
                    }
                }
                RecvOutcome { step: RecvStep::Deliver(ev), commands }
            },
            Ok(GatewayEvent::Heartbeat(seq)) => {
                let mut commands: Vec<Status> = Vec::new();
                commands.push(Status::SendMessage(heartbeat(seq)));
                RecvOutcome { step: RecvStep::Continue, commands }
            },
            Ok(GatewayEvent::Reconnect) => {
                RecvOutcome { step: RecvStep::Reconnect, commands: Vec::new() }
            },
            Ok(GatewayEvent::InvalidateSession) => {
                self.session_id = None;
                let frame = identify(self.token.as_str(), self.os.as_str());
                let mut commands: Vec<Status> = Vec::new();
                commands.push(Status::SendMessage(frame));
                RecvOutcome { step: RecvStep::Continue, commands }
            },
            Err(e) => {
                let step = match e {
                    Error::Transport => self.resume_or_reconnect(),
                    Error::Closed(code, _payload) => {
                        let resumable = match code {
                            Some(c) => c != 1000 && c != 4006,
                            None => true,
                        };
                        if resumable {
                            self.resume_or_reconnect()
                        } else {
                            RecvStep::Reconnect
                        }
                    },
                    other => RecvStep::Fail(other),
                };
                RecvOutcome { step, commands: Vec::new() }
            },
        }
    }

    /// One step of the resume handshake loop, on one inbound frame.
    ///
    /// The first dispatch completes the resume and is delivered as the
    /// first resumed event; a READY among them re-adopts its session id.
    /// On completion the new transport writer is handed to the worker
    /// through a `ChangeSender` command. A session invalidation asks for
    /// a fresh identify on the new transport; anything else is a
    /// protocol violation.
    pub fn resume_step(&mut self, ev: GatewayEvent) -> (r: ResumeOutcome)
        ensures
            same_identity(*old(self), *final(self)),
            match ev {
                GatewayEvent::Dispatch(seq, event) => {
                    &&& final(self).last_sequence == seq
                    &&& (event matches Event::Ready(rd) ==> (final(self).session_id matches Some(s)
                        && s@ == rd.session_id@))
                    &&& (!(event matches Event::Ready(_))
                        ==> final(self).session_id == old(self).session_id)
                    &&& r.step == ResumeStep::Done(event)
                    &&& r.commands@ == seq![Status::ChangeSender]
                },
                GatewayEvent::InvalidateSession => {
                    &&& *final(self) == *old(self)
                    &&& r.step == ResumeStep::Reidentify
                    &&& r.commands@.len() == 0
                },
                _ => {
                    &&& *final(self) == *old(self)
                    &&& (r.step matches ResumeStep::Failed(e) && e matches Error::Protocol(_))
                    &&& r.commands@.len() == 0
                },
            },
    {
        match ev {
            GatewayEvent::Dispatch(seq, event) => {
                if let Event::Ready(rd) = &event {
                    self.session_id = Some(rd.session_id.clone());
                }
                self.last_sequence = seq;
                let mut commands: Vec<Status> = Vec::new();
                commands.push(Status::ChangeSender);
                proof {
                    assert(commands@ =~= seq![Status::ChangeSender]);
                }
                ResumeOutcome { step: ResumeStep::Done(event), commands }
            },
            GatewayEvent::InvalidateSession => {
                ResumeOutcome { step: ResumeStep::Reidentify, commands: Vec::new() }
            },
            _ => {
                ResumeOutcome {
                    step: ResumeStep::Failed(Error::Protocol("unexpected event during resume")),
                    commands: Vec::new(),
                }
            },
        }
    }

    /// The reconnect schedule: two attempts against the cached gateway
    /// URL with a one-second pause after each failure, then one attempt
    /// against a freshly fetched URL. The caller runs it in order and
    /// stops at the first success.
    pub fn reconnect_schedule(&self) -> (v: Vec<ReconnectAction>)
        ensures
            v@ == seq![
                ReconnectAction::TryCached,
                ReconnectAction::Wait(1000),
                ReconnectAction::TryCached,
                ReconnectAction::Wait(1000),
                ReconnectAction::FetchFresh,
            ],
    {
        let mut v: Vec<ReconnectAction> = Vec::new();
        v.push(ReconnectAction::TryCached);
        v.push(ReconnectAction::Wait(1000));
        v.push(ReconnectAction::TryCached);
        v.push(ReconnectAction::Wait(1000));
        v.push(ReconnectAction::FetchFresh);
        proof {
            assert(v@ =~= seq![
                ReconnectAction::TryCached,
                ReconnectAction::Wait(1000),
                ReconnectAction::TryCached,
                ReconnectAction::Wait(1000),
                ReconnectAction::FetchFresh,
            ]);
        }
        v
    }

    /// Swap in the internals of a freshly connected session and adopt
    /// the session id of its READY snapshot; the caller shuts the old
    /// transport down. The handle stays stable across the swap.
    pub fn adopt(&mut self, fresh: Connection, ready: &ReadyEvent)
        ensures
            final(self).ws_url == fresh.ws_url,
            final(self).token == fresh.token,
            final(self).os == fresh.os,
            final(self).last_sequence == fresh.last_sequence,
            final(self).session_id matches Some(s) && s@ == ready.session_id@,
    {
        *self = fresh;
        self.session_id = Some(ready.session_id.clone());
    }

    /// The presence-update command for the given game, cleared when none
    /// is given, to be queued on the keepalive channel.
    pub fn set_game(&self, game: Option<Game>) -> (c: Status)
        ensures
            c matches Status::SendMessage(m) && frame_of(m) == Some(FrameV::SetGame {
                game: match game {
                    Some(g) => Some(g.name@),
                    None => None,
                },
            }),
    {
        let m = match &game {
            Some(g) => set_game_payload(Some(&g.name)),
            None => set_game_payload(None),
        };
        Status::SendMessage(m)
    }

    /// The presence-update command for playing the named game.
    pub fn set_game_name(&self, name: String) -> (c: Status)
        ensures
            c matches Status::SendMessage(m) && frame_of(m) == Some(FrameV::SetGame {
                game: Some(name@),
            }),
    {
        self.set_game(Some(Game::playing(name)))
    }

    /// The bulk-member-request command for the given servers, to be
    /// queued on the keepalive channel.
    pub fn __download_members(&self, servers: &[ServerId]) -> (c: Status)
        ensures
            c matches Status::SendMessage(m) && frame_of(m) == Some(FrameV::RequestMembers {
                guild_ids: member_ids(servers@),
            }),
    {
        Status::SendMessage(request_members(servers))
    }
}

/// Without a session id the recovery policy never resumes: after a
/// session invalidation the next handshake frame is an identify.
pub proof fn lemma_no_session_never_resumes(e: Error)
    ensures
        !wants_resume(None, e),
{
}

/// A close with code 1000 takes the reconnect path, never a resume.
pub proof fn lemma_close_1000_reconnects(session_id: Option<String>, payload: Vec<u8>)
    ensures
        !wants_resume(session_id, Error::Closed(Some(1000u16), payload)),
{
}

/// A close with code 4006 takes the reconnect path, never a resume.
pub proof fn lemma_close_4006_reconnects(session_id: Option<String>, payload: Vec<u8>)
    ensures
        !wants_resume(session_id, Error::Closed(Some(4006u16), payload)),
{
}

/// Any other close code, with a live session id, tries a resume first.
pub proof fn lemma_other_close_resumes(session_id: String, code: Option<u16>, payload: Vec<u8>)
    requires
        code != Some(1000u16),
        code != Some(4006u16),
    ensures
        wants_resume(Some(session_id), Error::Closed(code, payload)),
{
}

} // verus!
