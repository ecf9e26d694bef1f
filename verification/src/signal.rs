//! Control-signal interception.
//!
//! The engine's own synthetic copy command can come back as an interrupt
//! signal. While the injection flag is raised such a signal is swallowed;
//! otherwise a signal starts the graceful exit.

use vstd::prelude::*;
use crate::codes::{
    CTRL_BREAK_EVENT, CTRL_CLOSE_EVENT, CTRL_C_EVENT, CTRL_LOGOFF_EVENT, CTRL_SHUTDOWN_EVENT,
    SHUTDOWN_GRACE_MS,
};
use crate::state::EngineState;

verus! {

/// What the handler tells the system and the owning thread.
#[derive(Clone, Copy, Debug, PartialEq, Eq, Structural)]
pub struct SignalOutcome {
    /// The signal was dealt with; the default handler must not run.
    pub handled: bool,
    /// A quit message is to be posted to the owning thread.
    pub post_quit: bool,
    /// Milliseconds to wait before returning, so that teardown can finish.
    pub grace_ms: u64,
}

/// Interrupt-class signals: Ctrl+C and Ctrl+Break.
pub open spec fn is_interrupt(ctrl_type: u32) -> bool {
    ctrl_type == CTRL_C_EVENT || ctrl_type == CTRL_BREAK_EVENT
}

/// Closing-class signals: close, logoff and shutdown.
pub open spec fn is_closing(ctrl_type: u32) -> bool {
    ctrl_type == CTRL_CLOSE_EVENT || ctrl_type == CTRL_LOGOFF_EVENT || ctrl_type
        == CTRL_SHUTDOWN_EVENT
}

/// The handler's answer to a signal, given the injection flag.
pub open spec fn signal_outcome(simulating: bool, ctrl_type: u32) -> SignalOutcome {
    if is_interrupt(ctrl_type) {
        SignalOutcome { handled: true, post_quit: !simulating, grace_ms: 0 }
    } else if is_closing(ctrl_type) {
        SignalOutcome { handled: true, post_quit: false, grace_ms: SHUTDOWN_GRACE_MS }
    } else {
        SignalOutcome { handled: false, post_quit: false, grace_ms: 0 }
    }
}

/// Whether a signal raises the exit flag, given the injection flag.
pub open spec fn signal_requests_exit(simulating: bool, ctrl_type: u32) -> bool {
    (is_interrupt(ctrl_type) && !simulating) || is_closing(ctrl_type)
}

/// Process-wide control-signal handler.
///
/// An interrupt that arrives while the injection flag is raised is reported
/// as handled and changes nothing. Any other interrupt raises the exit flag
/// and posts a quit message. A closing signal always raises the exit flag and
/// asks for a grace period. Unknown signals are left to the default handler.
pub fn console_ctrl_handler(state: &mut EngineState, ctrl_type: u32) -> (out: SignalOutcome)
    ensures
        out == signal_outcome(old(state).simulating_injection, ctrl_type),
        *final(state) == (EngineState {
            should_exit: old(state).should_exit || signal_requests_exit(
                old(state).simulating_injection,
                ctrl_type,
            ),
            ..*old(state)
        }),
{
    if ctrl_type == CTRL_C_EVENT || ctrl_type == CTRL_BREAK_EVENT {
        if state.simulating_injection {
            SignalOutcome { handled: true, post_quit: false, grace_ms: 0 }
        } else {
            state.should_exit = true;
            SignalOutcome { handled: true, post_quit: true, grace_ms: 0 }
        }
    } else if ctrl_type == CTRL_CLOSE_EVENT || ctrl_type == CTRL_LOGOFF_EVENT || ctrl_type
        == CTRL_SHUTDOWN_EVENT {
        state.should_exit = true;
        SignalOutcome { handled: true, post_quit: false, grace_ms: SHUTDOWN_GRACE_MS }
    } else {
        SignalOutcome { handled: false, post_quit: false, grace_ms: 0 }
    }
}

/// Interception law. An interrupt is always reported as handled. While the
/// injection flag is raised it is swallowed whole: the exit flag stays as it
/// was and no quit message is posted. Once the flag is lowered, the same
/// signal raises the exit flag and posts a quit message.
pub proof fn lemma_interrupt_swallowed_while_injecting(simulating: bool, ctrl_type: u32)
    requires
        is_interrupt(ctrl_type),
    ensures
        signal_outcome(simulating, ctrl_type).handled,
        simulating ==> !signal_requests_exit(simulating, ctrl_type) && !signal_outcome(
            simulating,
            ctrl_type,
        ).post_quit,
        !simulating ==> signal_requests_exit(simulating, ctrl_type) && signal_outcome(
            simulating,
            ctrl_type,
        ).post_quit,
{
}

/// A closing signal raises the exit flag whatever the injection flag says.
pub proof fn lemma_closing_always_requests_exit(simulating: bool, ctrl_type: u32)
    requires
        is_closing(ctrl_type),
    ensures
        signal_requests_exit(simulating, ctrl_type),
        signal_outcome(simulating, ctrl_type).handled,
        signal_outcome(simulating, ctrl_type).grace_ms == SHUTDOWN_GRACE_MS,
{
}

} // verus!
