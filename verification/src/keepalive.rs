//! The keepalive worker's decision logic.
//!
//! The worker owns the outbound half of the transport. On each cycle it
//! applies every queued command in order, exits when the command channel
//! is gone, and otherwise emits an op-1 heartbeat whenever its timer
//! crosses a period boundary. The caller runs the cycle on its own
//! thread, performs the sends, and feeds the drained commands and the
//! clock in; every decision is made and proved here.

use vstd::prelude::*;
use crate::codec::{frame_of, FrameV, heartbeat};
use crate::internal::Status;
use crate::json::Json;

verus! {

/// Addition on `u64` that stops at the top instead of wrapping.
pub open spec fn sat_add(a: u64, b: u64) -> u64 {
    if a + b > u64::MAX {
        u64::MAX
    } else {
        (a + b) as u64
    }
}

/// A periodic tick source over a millisecond clock supplied by the
/// caller. A period of zero produces no ticks at all.
pub struct Timer {
    pub interval_ms: u64,
    pub due_at_ms: u64,
}

/// The timer that `Timer::new` returns.
pub open spec fn spec_timer(interval_ms: u64, now_ms: u64) -> Timer {
    Timer { interval_ms, due_at_ms: sat_add(now_ms, interval_ms) }
}

impl Timer {
    /// A timer that first fires one period from now.
    pub fn new(interval_ms: u64, now_ms: u64) -> (t: Timer)
        ensures
            t == spec_timer(interval_ms, now_ms),
    {
        let due_at_ms: u64 = if interval_ms > u64::MAX - now_ms {
            u64::MAX
        } else {
            now_ms + interval_ms
        };
        Timer { interval_ms, due_at_ms }
    }

    /// True when the timer is due at `now_ms`.
    pub open spec fn due(self, now_ms: u64) -> bool {
        self.interval_ms > 0 && now_ms >= self.due_at_ms
    }

    /// Reports whether a period boundary has been crossed, and schedules
    /// the next one if so. A timer with a zero period never fires.
    pub fn check_tick(&mut self, now_ms: u64) -> (b: bool)
        ensures
            b == old(self).due(now_ms),
            final(self).interval_ms == old(self).interval_ms,
            b ==> *final(self) == spec_timer(old(self).interval_ms, now_ms),
            !b ==> *final(self) == *old(self),
    {
        if self.interval_ms > 0 && now_ms >= self.due_at_ms {
            let fresh = Timer::new(self.interval_ms, now_ms);
            self.due_at_ms = fresh.due_at_ms;
            true
        } else {
            false
        }
    }
}

/// The state the keepalive worker carries between cycles: its mirror of
/// the last dispatch sequence, and the heartbeat timer.
pub struct Keepalive {
    pub last_sequence: u64,
    pub timer: Timer,
}

/// The worker's mirror of `last_sequence` after applying a command
/// batch: the value carried by the last `Sequence` command, or the
/// initial value when the batch holds none.
pub open spec fn seq_after(init: u64, cmds: Seq<Status>) -> u64
    decreases cmds.len(),
{
    if cmds.len() == 0 {
        init
    } else {
        seq_after(
            match cmds[0] {
                Status::Sequence(n) => n,
                _ => init,
            },
            cmds.skip(1),
        )
    }
}

/// The worker's timer after applying a command batch at time `now_ms`:
/// the last `ChangeInterval` wins.
pub open spec fn timer_after(init: Timer, cmds: Seq<Status>, now_ms: u64) -> Timer
    decreases cmds.len(),
{
    if cmds.len() == 0 {
        init
    } else {
        timer_after(
            match cmds[0] {
                Status::ChangeInterval(ms) => spec_timer(ms, now_ms),
                _ => init,
            },
            cmds.skip(1),
            now_ms,
        )
    }
}

/// What a command batch makes the worker do to the transport, in order:
/// each `SendMessage` becomes a send, each `ChangeSender` an adoption of
/// the writer queued beside it.
pub open spec fn worker_outs(cmds: Seq<Status>) -> Seq<WorkerOut>
    decreases cmds.len(),
{
    if cmds.len() == 0 {
        Seq::empty()
    } else {
        let rest = worker_outs(cmds.skip(1));
        match cmds[0] {
            Status::SendMessage(m) => seq![WorkerOut::Send(m)] + rest,
            Status::ChangeSender => seq![WorkerOut::Adopt] + rest,
            _ => rest,
        }
    }
}

/// One action the worker takes on the transport.
pub enum WorkerOut {
    /// Serialize and send this frame on the current writer.
    Send(Json),
    /// Adopt the next queued transport writer.
    Adopt,
}

/// What one worker cycle decided: the transport actions in order, and
/// whether the worker exits.
pub struct CycleOut {
    pub outs: Vec<WorkerOut>,
    pub exit: bool,
}

impl Keepalive {
    /// Worker state at spawn time: no dispatch seen yet, timer started
    /// on the handshake's heartbeat interval.
    pub fn new(interval_ms: u64, now_ms: u64) -> (k: Keepalive)
        ensures
            k.last_sequence == 0,
            k.timer == spec_timer(interval_ms, now_ms),
    {
        Keepalive { last_sequence: 0, timer: Timer::new(interval_ms, now_ms) }
    }

    /// Applies one command, in arrival order, and reports the transport
    /// action it causes, if any.
    pub fn apply_command(&mut self, cmd: Status, now_ms: u64) -> (out: Option<WorkerOut>)
        ensures
            match cmd {
                Status::SendMessage(m) => out == Some(WorkerOut::Send(m)) && *final(self) == *old(self),
                Status::Sequence(n) => out is None && final(self).last_sequence == n && final(self).timer
                    == old(self).timer,
                Status::ChangeInterval(ms) => out is None && final(self).timer == spec_timer(ms, now_ms)
                    && final(self).last_sequence == old(self).last_sequence,
                Status::ChangeSender => out == Some(WorkerOut::Adopt) && *final(self) == *old(self),
            },
    {
        match cmd {
            Status::SendMessage(m) => Some(WorkerOut::Send(m)),
            Status::Sequence(n) => {
                self.last_sequence = n;
                None
            },
            Status::ChangeInterval(ms) => {
                self.timer = Timer::new(ms, now_ms);
                None
            },
            Status::ChangeSender => Some(WorkerOut::Adopt),
        }
    }

    /// Applies a drained command batch in FIFO order, collecting the
    /// transport actions it causes.
    pub fn drain(&mut self, cmds: Vec<Status>, now_ms: u64) -> (outs: Vec<WorkerOut>)
        ensures
            final(self).last_sequence == seq_after(old(self).last_sequence, cmds@),
            final(self).timer == timer_after(old(self).timer, cmds@, now_ms),
            outs@ == worker_outs(cmds@),
    {
        let ghost orig_cmds = cmds@;
        let mut cmds = cmds;
        let mut outs: Vec<WorkerOut> = Vec::new();
        proof {
            assert(outs@ + worker_outs(cmds@) =~= worker_outs(orig_cmds));
        }
        while cmds.len() > 0
            invariant
                seq_after(old(self).last_sequence, orig_cmds) == seq_after(
                    self.last_sequence,
                    cmds@,
                ),
                timer_after(old(self).timer, orig_cmds, now_ms) == timer_after(
                    self.timer,
                    cmds@,
                    now_ms,
                ),
                worker_outs(orig_cmds) == outs@ + worker_outs(cmds@),
            decreases cmds.len(),
        {
            let ghost pre = cmds@;
            let c = cmds.remove(0);
            let ghost c_spec = c;
            proof {
                assert(pre.remove(0) =~= pre.skip(1));
            }
            let out = self.apply_command(c, now_ms);
            match out {
                Some(o) => {
                    outs.push(o);
                    proof {
                        match c_spec {
                            Status::SendMessage(m) => {
                                assert(worker_outs(pre) =~= seq![WorkerOut::Send(m)]
                                    + worker_outs(pre.skip(1)));
                                assert(outs@ + worker_outs(cmds@) =~= worker_outs(orig_cmds));
                            },
                            Status::ChangeSender => {
                                assert(worker_outs(pre) =~= seq![WorkerOut::Adopt] + worker_outs(
                                    pre.skip(1),
                                ));
                                assert(outs@ + worker_outs(cmds@) =~= worker_outs(orig_cmds));
                            },
                            _ => {},
                        }
                    }
                },
                None => {},
            }
        }
        proof {
            assert(outs@ =~= outs@ + worker_outs(cmds@));
        }
        outs
    }

    /// One worker cycle: apply the drained commands in order; exit when
    /// the channel was observed disconnected (and then send nothing
    /// more); otherwise emit a heartbeat carrying the latest observed
    /// sequence if the timer has crossed a period boundary.
    ///
    /// The worker exits exactly when the command channel is gone, and
    /// every heartbeat carries the last `Sequence` value it has seen:
    /// once a newer sequence is applied, no older one is ever sent.
    pub fn cycle(&mut self, cmds: Vec<Status>, disconnected: bool, now_ms: u64) -> (r: CycleOut)
        ensures
            r.exit == disconnected,
            final(self).last_sequence == seq_after(old(self).last_sequence, cmds@),
            disconnected ==> r.outs@ == worker_outs(cmds@) && final(self).timer == timer_after(
                old(self).timer,
                cmds@,
                now_ms,
            ),
            !disconnected ==> {
                let drained_timer = timer_after(old(self).timer, cmds@, now_ms);
                if drained_timer.due(now_ms) {
                    r.outs@.len() == worker_outs(cmds@).len() + 1
                        && r.outs@.take(worker_outs(cmds@).len() as int) == worker_outs(cmds@)
                        && (r.outs@.last() matches WorkerOut::Send(m) && frame_of(m) == Some(
                        FrameV::Heartbeat { seq: final(self).last_sequence },
                    )) && final(self).timer == spec_timer(drained_timer.interval_ms, now_ms)
                } else {
                    r.outs@ == worker_outs(cmds@) && final(self).timer == drained_timer
                }
            },
    {
        let mut outs = self.drain(cmds, now_ms);
        if disconnected {
            return CycleOut { outs, exit: true };
        }
        let ghost drained = outs@;
        if self.timer.check_tick(now_ms) {
            let frame = heartbeat(self.last_sequence);
            outs.push(WorkerOut::Send(frame));
            proof {
                assert(outs@.take(drained.len() as int) =~= drained);
            }
        }
        CycleOut { outs, exit: false }
    }
}

/// The latest `Sequence` command in a batch wins: if position `i` holds
/// `Sequence(n)` and no later command is a `Sequence`, the worker's
/// mirror after the batch is exactly `n` — no older value survives.
pub proof fn lemma_heartbeat_carries_latest(init: u64, cmds: Seq<Status>, i: int, n: u64)
    requires
        0 <= i < cmds.len(),
        cmds[i] == Status::Sequence(n),
        forall|j: int| i < j < cmds.len() ==> !(#[trigger] cmds[j] matches Status::Sequence(_)),
    ensures
        seq_after(init, cmds) == n,
    decreases cmds.len(),
{
    if i == 0 {
        lemma_no_sequence_keeps(n, cmds.skip(1));
    } else {
        assert(cmds.skip(1)[i - 1] == cmds[i]);
        assert(forall|j: int|
            i - 1 < j < cmds.skip(1).len() ==> !(#[trigger] cmds.skip(1)[j] matches Status::Sequence(
                _,
            )));
        match cmds[0] {
            Status::Sequence(m) => lemma_heartbeat_carries_latest(m, cmds.skip(1), i - 1, n),
            _ => lemma_heartbeat_carries_latest(init, cmds.skip(1), i - 1, n),
        }
    }
}

/// A batch without any `Sequence` command leaves the mirror untouched.
pub proof fn lemma_no_sequence_keeps(init: u64, cmds: Seq<Status>)
    requires
        forall|j: int| 0 <= j < cmds.len() ==> !(#[trigger] cmds[j] matches Status::Sequence(_)),
    ensures
        seq_after(init, cmds) == init,
    decreases cmds.len(),
{
    if cmds.len() > 0 {
        assert(forall|j: int|
            0 <= j < cmds.skip(1).len() ==> cmds.skip(1)[j] == cmds[j + 1]);
        lemma_no_sequence_keeps(init, cmds.skip(1));
    }
}

} // verus!
