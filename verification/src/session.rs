//! Per-connection session state: a running flag whose two transitions,
//! `try_begin` and `end`, are the only way a measurement loop is admitted
//! or retired. The caller serializes access to the `Session` value (one
//! mutable reference at a time), which is what makes the two transitions
//! indivisible with respect to each other.

use vstd::prelude::*;

use crate::command::Command;

verus! {

/// The duration, in seconds, of a loop started without one.
pub const DEFAULT_DURATION_SECS: u64 = 15;

/// Control state of one client connection: whether a measurement loop is
/// currently active for it.
pub struct Session {
    pub running: bool,
}

impl Session {
    /// A fresh session has no active loop.
    pub fn new() -> (s: Session)
        ensures
            !s.is_running_spec(),
    {
        Session { running: false }
    }

    /// Whether a measurement loop is active.
    pub open spec fn is_running_spec(self) -> bool {
        self.running
    }

    /// Admit a new measurement loop: fails (and changes nothing) when one
    /// is already running, otherwise marks the session running. Two calls
    /// on the same session cannot both succeed without an `end` between
    /// them, because each call holds the only mutable reference.
    pub fn try_begin(&mut self) -> (ok: bool)
        ensures
            ok == !old(self).is_running_spec(),
            final(self).is_running_spec(),
    {
        if self.running {
            false
        } else {
            self.running = true;
            true
        }
    }

    /// Retire the active loop (or request that it stop): clears the
    /// running flag unconditionally.
    pub fn end(&mut self)
        ensures
            !final(self).is_running_spec(),
    {
        self.running = false;
    }

    /// Read the running flag; the measurement loop polls this at each tick
    /// boundary to observe a stop requested elsewhere.
    pub fn is_running(&self) -> (r: bool)
        ensures
            r == self.is_running_spec(),
    {
        self.running
    }
}

/// The requested duration, or the default when none was given.
pub open spec fn spec_duration_or_default(d: Option<u64>) -> u64 {
    match d {
        Some(v) => v,
        None => DEFAULT_DURATION_SECS,
    }
}

/// What one command does to the session, and whether a loop is to be
/// spawned, with which duration: a start while running is silently ignored
/// (idempotent start); a stop clears the flag and nothing more — it relies
/// on the loop observing the flag at its next tick boundary; an
/// unrecognized message does nothing at all.
pub open spec fn spec_dispatch(s: Session, c: Command) -> (Session, Option<u64>) {
    match c {
        Command::Start { duration } => {
            if s.running {
                (s, None)
            } else {
                (Session { running: true }, Some(spec_duration_or_default(duration)))
            }
        },
        Command::Stop => (Session { running: false }, None),
        Command::Unrecognized => (s, None),
    }
}

/// Apply one command to the session. `Some(d)` asks the caller to spawn a
/// measurement loop of `d` seconds; it comes exactly when the command is a
/// start and no loop was running.
pub fn dispatch(session: &mut Session, cmd: &Command) -> (spawn: Option<u64>)
    ensures
        (*final(session), spawn) == spec_dispatch(*old(session), *cmd),
{
    match cmd {
        Command::Start { duration } => {
            if session.try_begin() {
                Some(
                    match duration {
                        Some(v) => *v,
                        None => DEFAULT_DURATION_SECS,
                    },
                )
            } else {
                None
            }
        },
        Command::Stop => {
            session.end();
            None
        },
        Command::Unrecognized => None,
    }
}

} // verus!
