//! Keep-alive task: periodic liveness traffic on the link.
//!
//! The task is a two-state machine. It sleeps in `Idle`; when the timer
//! fires it moves to `Sending` and emits one keep-alive frame; once the
//! frame is handed to the gateway it returns to `Idle`. The timer itself
//! runs outside the library, which only decides what each event means.

use crate::codec::keep_alive_frame;
use crate::codec::keep_alive_message;
use crate::gateway::Gateway;
use vstd::prelude::*;

verus! {

/// The two states of the keep-alive task.
#[derive(Clone, Copy, Debug, PartialEq, Eq, Structural)]
pub enum KeepAliveState {
    /// Sleeping until the timer fires.
    Idle,
    /// A keep-alive frame is on its way to the gateway.
    Sending,
}

/// The events the keep-alive task reacts to.
#[derive(Clone, Copy, Debug, PartialEq, Eq, Structural)]
pub enum KeepAliveEvent {
    /// The periodic timer elapsed.
    TimerFired,
    /// The gateway accepted the frame.
    SendCompleted,
}

/// One transition of the keep-alive state machine: the next state, and the
/// frame to transmit, if any. Only a timer firing in `Idle` produces a
/// frame, and that frame is always the keep-alive frame.
pub fn keep_alive_transition(st: KeepAliveState, ev: KeepAliveEvent) -> (r: (
    KeepAliveState,
    Option<Vec<u8>>,
))
    ensures
        (st == KeepAliveState::Idle && ev == KeepAliveEvent::TimerFired) ==> {
            &&& r.0 == KeepAliveState::Sending
            &&& r.1 matches Some(frame) && frame@ == keep_alive_frame()
        },
        (st == KeepAliveState::Sending && ev == KeepAliveEvent::SendCompleted) ==> (r.0
            == KeepAliveState::Idle && r.1 matches None),
        !((st == KeepAliveState::Idle && ev == KeepAliveEvent::TimerFired) || (st
            == KeepAliveState::Sending && ev == KeepAliveEvent::SendCompleted)) ==> (r.0 == st
            && r.1 matches None),
{
    match (st, ev) {
        (KeepAliveState::Idle, KeepAliveEvent::TimerFired) => (
            KeepAliveState::Sending,
            Some(keep_alive_message()),
        ),
        (KeepAliveState::Sending, KeepAliveEvent::SendCompleted) => (KeepAliveState::Idle, None),
        _ => (st, None),
    }
}

/// One full keep-alive cycle: the timer fired, so encode the keep-alive
/// frame and transmit it through the gateway.
pub fn keep_alive_tick(gw: &mut Gateway)
    requires
        old(gw).wf(),
    ensures
        final(gw).wf(),
        final(gw).frames@ == old(gw).frames@.push(keep_alive_frame()),
        final(gw).wire@ == old(gw).wire@ + keep_alive_frame(),
{
    let frame = keep_alive_message();
    gw.send(&frame);
}

/// Run `ticks` keep-alive cycles in a row: exactly one keep-alive frame
/// goes out per cycle, and nothing else.
pub fn run_keep_alive(gw: &mut Gateway, ticks: usize)
    requires
        old(gw).wf(),
    ensures
        final(gw).wf(),
        final(gw).frames@ == old(gw).frames@ + Seq::new(
            ticks as nat,
            |i: int| keep_alive_frame(),
        ),
{
    let mut t: usize = 0;
    while t < ticks
        invariant
            t <= ticks,
            gw.wf(),
            gw.frames@ == old(gw).frames@ + Seq::new(t as nat, |i: int| keep_alive_frame()),
        decreases ticks - t,
    {
        proof {
            assert((old(gw).frames@ + Seq::new(t as nat, |i: int| keep_alive_frame())).push(
                keep_alive_frame(),
            ) =~= old(gw).frames@ + Seq::new((t + 1) as nat, |i: int| keep_alive_frame()));
        }
        keep_alive_tick(gw);
        t += 1;
    }
    proof {
        assert(gw.frames@ =~= old(gw).frames@ + Seq::new(ticks as nat, |i: int| keep_alive_frame()));
    }
}

} // verus!
