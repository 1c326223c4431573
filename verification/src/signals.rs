//! Signal-to-event conversion.
//!
//! The daemon cares about three asynchronous signals: the alarm timer, the
//! termination request and the child-state change. They are blocked from
//! default delivery and observed only through a pollable descriptor (set up
//! by the event loop); each signal read from it is classified here and
//! drives exactly one orchestrator operation.

use vstd::prelude::*;

verus! {

/// Signal number of the alarm timer (Linux numbering).
pub const SIGNO_ALARM: i32 = 14;

/// Signal number of the termination request (Linux numbering).
pub const SIGNO_TERM: i32 = 15;

/// Signal number of the child-state change (Linux numbering).
pub const SIGNO_CHILD: i32 = 17;

/// The orchestrator operation a signal maps to.
#[derive(Clone, Copy, PartialEq, Eq, Structural, Debug)]
pub enum SignalEvent {
    /// The escalation timer fired: drive an alarm tick.
    AlarmTick,
    /// A child changed state: reap every exited child.
    ReapChildren,
    /// Termination was requested: terminate the daemon.
    TerminateRequest,
}

/// Classify one read signal: each of the three signals of interest drives
/// exactly one orchestrator operation, and every other signal is ignored.
pub fn classify_signal(signo: i32) -> (r: Option<SignalEvent>)
    ensures
        signo == SIGNO_ALARM ==> r == Some(SignalEvent::AlarmTick),
        signo == SIGNO_CHILD ==> r == Some(SignalEvent::ReapChildren),
        signo == SIGNO_TERM ==> r == Some(SignalEvent::TerminateRequest),
        signo != SIGNO_ALARM && signo != SIGNO_CHILD && signo != SIGNO_TERM ==> r is None,
{
    if signo == SIGNO_ALARM {
        Some(SignalEvent::AlarmTick)
    } else if signo == SIGNO_CHILD {
        Some(SignalEvent::ReapChildren)
    } else if signo == SIGNO_TERM {
        Some(SignalEvent::TerminateRequest)
    } else {
        None
    }
}

} // verus!
