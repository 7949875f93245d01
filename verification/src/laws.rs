//! The session-control guarantees, stated and proved over the state
//! machines' models.
//!
//! A loop's life is modelled as a sequence of tick-boundary events, each a
//! pair `(flag, write_ok)`: the value of the session's running flag the
//! loop observed at that boundary, and whether the write of that tick's
//! data message succeeded. `spec_loop_msgs` lists the messages such a run
//! emits, end notice included.

use vstd::prelude::*;

use crate::command::Command;
use crate::command::spec_parse_command;
use crate::machine::LoopMachine;
use crate::machine::LoopPhase;
use crate::machine::spec_drain;
use crate::machine::spec_started;
use crate::machine::spec_tick;
use crate::session::Session;
use crate::session::spec_dispatch;
use crate::session::spec_duration_or_default;

verus! {

/// The kinds of outbound message a loop emits.
#[derive(Clone, Copy, Debug, PartialEq, Eq)]
pub enum MsgKind {
    Data,
    End,
}

/// The messages a loop emits over a run of tick-boundary events. A machine
/// in `Draining` emits the single end notice and stops; a running machine
/// takes one event per boundary; a run too short to finish the loop emits
/// what its boundaries produced.
pub open spec fn spec_loop_msgs(m: LoopMachine, evs: Seq<(bool, bool)>) -> Seq<MsgKind>
    decreases evs.len(),
{
    if m.phase == LoopPhase::Draining {
        seq![MsgKind::End]
    } else if m.phase != LoopPhase::Running {
        Seq::<MsgKind>::empty()
    } else if evs.len() == 0 {
        Seq::<MsgKind>::empty()
    } else {
        let r = spec_tick(m, evs[0].0, evs[0].1);
        (if r.1 {
            seq![MsgKind::Data]
        } else {
            Seq::<MsgKind>::empty()
        }) + spec_loop_msgs(r.0, evs.drop_first())
    }
}

/// A run of a loop that observes the flag true at every boundary and whose
/// writes all succeed emits one data message per tick of its remaining
/// budget, then exactly one end notice.
pub proof fn law_full_run(m: LoopMachine, evs: Seq<(bool, bool)>)
    requires
        m.phase == LoopPhase::Running,
        m.ticks_done <= m.ticks_total,
        evs.len() > m.ticks_total - m.ticks_done,
        forall|i: int| 0 <= i < evs.len() ==> evs[i] == (true, true),
    ensures
        spec_loop_msgs(m, evs) == Seq::new(
            (m.ticks_total - m.ticks_done) as nat,
            |i: int| MsgKind::Data,
        ).push(MsgKind::End),
    decreases evs.len(),
{
    let n = (m.ticks_total - m.ticks_done) as nat;
    let want = Seq::new(n, |i: int| MsgKind::Data).push(MsgKind::End);
    assert(evs[0] == (true, true));
    let r = spec_tick(m, evs[0].0, evs[0].1);
    if m.ticks_done == m.ticks_total {
        assert(r.0.phase == LoopPhase::Draining && !r.1);
        assert(spec_loop_msgs(r.0, evs.drop_first()) == seq![MsgKind::End]);
        assert(spec_loop_msgs(m, evs) =~= want);
    } else {
        assert(r.1 && r.0.ticks_done == m.ticks_done + 1);
        assert forall|i: int| 0 <= i < evs.drop_first().len() implies evs.drop_first()[i] == (
        true,
        true,
        ) by {
            assert(evs.drop_first()[i] == evs[i + 1]);
        }
        law_full_run(r.0, evs.drop_first());
        let tail = Seq::new((n - 1) as nat, |i: int| MsgKind::Data).push(MsgKind::End);
        assert(spec_loop_msgs(m, evs) == seq![MsgKind::Data] + tail);
        assert(seq![MsgKind::Data] + tail =~= want);
    }
}

/// A loop started with duration `d` seconds and never stopped, whose writes
/// all succeed, emits exactly `d * 10` data messages followed by one end
/// notice.
pub proof fn law_duration_run(d: u64, evs: Seq<(bool, bool)>)
    requires
        d <= u64::MAX / 10,
        evs.len() > d * 10,
        forall|i: int| 0 <= i < evs.len() ==> evs[i] == (true, true),
    ensures
        spec_loop_msgs(spec_started(d), evs) == Seq::new(
            (d * 10) as nat,
            |i: int| MsgKind::Data,
        ).push(MsgKind::End),
{
    law_full_run(spec_started(d), evs);
}

/// Once the flag reads false at a boundary — a stop was issued — or the
/// write of that boundary fails, the loop emits no further data message and
/// exactly one end notice: cancellation latency is bounded by the single
/// tick already in flight.
pub proof fn law_prompt_stop(m: LoopMachine, evs: Seq<(bool, bool)>)
    requires
        m.phase == LoopPhase::Running,
        evs.len() >= 1,
        !evs[0].0 || !evs[0].1,
    ensures
        spec_loop_msgs(m, evs) == seq![MsgKind::End],
{
    let r = spec_tick(m, evs[0].0, evs[0].1);
    assert(r.0.phase == LoopPhase::Draining && !r.1);
    assert(spec_loop_msgs(r.0, evs.drop_first()) == seq![MsgKind::End]);
    assert(spec_loop_msgs(m, evs) =~= seq![MsgKind::End]);
}

/// Fold a sequence of commands through the dispatcher: the final session
/// and how many loops were spawned along the way.
pub open spec fn spec_dispatch_all(s: Session, cs: Seq<Command>) -> (Session, nat)
    decreases cs.len(),
{
    if cs.len() == 0 {
        (s, 0)
    } else {
        let r = spec_dispatch(s, cs[0]);
        let rest = spec_dispatch_all(r.0, cs.drop_first());
        (
            rest.0,
            ((if r.1 is Some {
                1int
            } else {
                0int
            }) + rest.1) as nat,
        )
    }
}

/// While a loop is running, any sequence of start commands is ignored
/// whole: the session does not change and no second loop is spawned — at
/// most one loop is ever active per session.
pub proof fn law_single_loop(s: Session, cs: Seq<Command>)
    requires
        s.is_running_spec(),
        forall|i: int|
            0 <= i < cs.len() ==> (#[trigger] cs[i]) matches Command::Start { .. },
    ensures
        spec_dispatch_all(s, cs).0 == s,
        spec_dispatch_all(s, cs).1 == 0,
    decreases cs.len(),
{
    if cs.len() > 0 {
        assert(cs[0] matches Command::Start { .. });
        assert(spec_dispatch(s, cs[0]) == (s, Option::<u64>::None));
        assert forall|i: int|
            0 <= i < cs.drop_first().len() implies (#[trigger] cs.drop_first()[i]) matches Command::Start {
            ..
        } by {
            assert(cs.drop_first()[i] == cs[i + 1]);
        }
        law_single_loop(s, cs.drop_first());
    }
}

/// After a loop drains — natural completion and cancellation end there
/// alike — the running flag is false, so a subsequent start on the same
/// session is accepted and spawns a new loop.
pub proof fn law_restart_after_drain(m: LoopMachine, s: Session, d: Option<u64>)
    ensures
        !spec_drain(m, s).1.is_running_spec(),
        spec_dispatch(spec_drain(m, s).1, Command::Start { duration: d }).1 == Some(
            spec_duration_or_default(d),
        ),
        spec_dispatch(spec_drain(m, s).1, Command::Start { duration: d }).0.is_running_spec(),
{
}

/// In any run of a loop, every message before the last one is a data
/// message: the end notice is emitted at most once, always last, and no
/// data message follows it — one loop's output is a single well-formed
/// stream.
pub proof fn law_end_is_final(m: LoopMachine, evs: Seq<(bool, bool)>)
    ensures
        forall|i: int|
            0 <= i < spec_loop_msgs(m, evs).len() - 1 ==> spec_loop_msgs(m, evs)[i]
                == MsgKind::Data,
    decreases evs.len(),
{
    let ms = spec_loop_msgs(m, evs);
    if m.phase == LoopPhase::Draining {
        assert(ms.len() == 1);
    } else if m.phase != LoopPhase::Running || evs.len() == 0 {
        assert(ms.len() == 0);
    } else {
        let r = spec_tick(m, evs[0].0, evs[0].1);
        let rest = spec_loop_msgs(r.0, evs.drop_first());
        law_end_is_final(r.0, evs.drop_first());
        assert forall|i: int| 0 <= i < ms.len() - 1 implies ms[i] == MsgKind::Data by {
            if r.1 {
                assert(ms == seq![MsgKind::Data] + rest);
                if i > 0 {
                    assert(ms[i] == rest[i - 1]);
                }
            } else {
                assert(ms =~= rest);
            }
        }
    }
}

/// An inbound message that parses to no recognized command leaves the
/// session unchanged and spawns nothing: it produces no outbound message
/// and no state change.
pub proof fn law_ignored_message(s: Session, msg: Seq<u8>)
    requires
        spec_parse_command(msg) == Command::Unrecognized,
    ensures
        spec_dispatch(s, spec_parse_command(msg)) == (s, Option::<u64>::None),
{
}

} // verus!
