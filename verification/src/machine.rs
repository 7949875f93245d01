//! The measurement loop's state machine.
//!
//! A loop runs through `Idle → Running → Draining → Terminated`. While
//! `Running` it wakes every tick, reads the session's running flag, and
//! either emits one data message or leaves for `Draining`: when the flag
//! was cleared (cooperative cancellation), when the tick budget of ten
//! ticks per second of duration is spent, or when a write failed (the peer
//! is gone). `Draining` emits the single end notice and clears the
//! session's flag unconditionally, so that a later start is accepted, and
//! the loop terminates. The caller owns the scheduling (one wake per tick)
//! and the writes; the machine owns every decision.

use vstd::prelude::*;

use crate::session::Session;

verus! {

#[derive(Clone, Copy, Debug, PartialEq, Eq)]
pub enum LoopPhase {
    Idle,
    Running,
    Draining,
    Terminated,
}

/// The state of one measurement loop: its phase, its tick budget, and how
/// many data messages it has sent.
#[derive(Clone, Copy, Debug)]
pub struct LoopMachine {
    pub phase: LoopPhase,
    pub ticks_total: u64,
    pub ticks_done: u64,
}

/// The tick budget of a duration of `d` seconds: ten ticks per second,
/// capped at the largest representable budget.
pub open spec fn spec_ticks_of(d: u64) -> u64 {
    if d <= u64::MAX / 10 {
        (d * 10) as u64
    } else {
        u64::MAX
    }
}

/// A machine as `start` leaves it.
pub open spec fn spec_started(d: u64) -> LoopMachine {
    LoopMachine { phase: LoopPhase::Running, ticks_total: spec_ticks_of(d), ticks_done: 0 }
}

/// One tick boundary: observe the flag, then try to emit one data message.
/// Returns the next state and whether a data message went out.
pub open spec fn spec_tick(m: LoopMachine, flag: bool, write_ok: bool) -> (LoopMachine, bool) {
    if !flag || m.ticks_done >= m.ticks_total {
        (LoopMachine { phase: LoopPhase::Draining, ..m }, false)
    } else if write_ok {
        (LoopMachine { ticks_done: (m.ticks_done + 1) as u64, ..m }, true)
    } else {
        (LoopMachine { phase: LoopPhase::Draining, ..m }, false)
    }
}

/// Draining: the end notice goes out (best effort) and the session's flag
/// is cleared unconditionally.
pub open spec fn spec_drain(m: LoopMachine, s: Session) -> (LoopMachine, Session) {
    (LoopMachine { phase: LoopPhase::Terminated, ..m }, Session { running: false })
}

impl LoopMachine {
    pub open spec fn wf(self) -> bool {
        self.ticks_done <= self.ticks_total
    }

    pub fn new() -> (m: LoopMachine)
        ensures
            m == (LoopMachine { phase: LoopPhase::Idle, ticks_total: 0u64, ticks_done: 0u64 }),
    {
        LoopMachine { phase: LoopPhase::Idle, ticks_total: 0, ticks_done: 0 }
    }

    /// Enter `Running` with a budget of ten ticks per second of `duration`.
    pub fn start(&mut self, duration: u64)
        requires
            old(self).phase == LoopPhase::Idle,
        ensures
            *final(self) == spec_started(duration),
            final(self).wf(),
    {
        let total = if duration <= u64::MAX / 10 {
            duration * 10
        } else {
            u64::MAX
        };
        self.phase = LoopPhase::Running;
        self.ticks_total = total;
        self.ticks_done = 0;
    }

    /// The first half of a tick: observe the session's flag and the budget.
    /// True means one data message should now be written; false means the
    /// loop has left for `Draining`.
    pub fn tick_check(&mut self, flag: bool) -> (emit: bool)
        requires
            old(self).phase == LoopPhase::Running,
        ensures
            emit == (flag && old(self).ticks_done < old(self).ticks_total),
            emit ==> *final(self) == *old(self),
            !emit ==> *final(self) == (LoopMachine { phase: LoopPhase::Draining, ..*old(self) }),
    {
        if !flag || self.ticks_done >= self.ticks_total {
            self.phase = LoopPhase::Draining;
            false
        } else {
            true
        }
    }

    /// The second half of a tick after a successful write: count the data
    /// message. Together with `tick_check` this is `spec_tick` with a
    /// successful write.
    pub fn note_sent(&mut self)
        requires
            old(self).phase == LoopPhase::Running,
            old(self).ticks_done < old(self).ticks_total,
        ensures
            *final(self) == (LoopMachine {
                ticks_done: (old(self).ticks_done + 1) as u64,
                ..*old(self)
            }),
    {
        self.ticks_done = self.ticks_done + 1;
    }

    /// The second half of a tick after a failed write: the peer is gone,
    /// leave for `Draining`. Together with `tick_check` this is `spec_tick`
    /// with a failed write.
    pub fn note_write_failed(&mut self)
        requires
            old(self).phase == LoopPhase::Running,
        ensures
            *final(self) == (LoopMachine { phase: LoopPhase::Draining, ..*old(self) }),
    {
        self.phase = LoopPhase::Draining;
    }

    /// Leave `Draining`: the caller has written (or tried to write) the end
    /// notice; clear the session's flag unconditionally and terminate, so
    /// that a stop received mid-tick cannot leave the flag stuck and a
    /// fresh start is accepted afterwards.
    pub fn drain(&mut self, session: &mut Session)
        requires
            old(self).phase == LoopPhase::Draining,
        ensures
            (*final(self), *final(session)) == spec_drain(*old(self), *old(session)),
            !final(session).is_running_spec(),
    {
        session.end();
        self.phase = LoopPhase::Terminated;
    }
}

/// `tick_check` followed by the matching note is exactly one `spec_tick`.
pub proof fn lemma_tick_composition(m: LoopMachine, flag: bool, write_ok: bool)
    requires
        m.phase == LoopPhase::Running,
    ensures
        (flag && m.ticks_done < m.ticks_total) ==> spec_tick(m, flag, write_ok) == (
        if write_ok {
            (LoopMachine { ticks_done: (m.ticks_done + 1) as u64, ..m }, true)
        } else {
            (LoopMachine { phase: LoopPhase::Draining, ..m }, false)
        }),
        !(flag && m.ticks_done < m.ticks_total) ==> spec_tick(m, flag, write_ok) == (
        (LoopMachine { phase: LoopPhase::Draining, ..m }, false)),
{
}

} // verus!
