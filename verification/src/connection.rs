//! Connection bootstrap decisions. A worker owns one event loop and one
//! protocol context; it pumps the loop and polls the context's state until
//! the context is ready or has permanently failed. The pumping itself is
//! unverified I/O; the decisions taken on each observed state live here.

use vstd::prelude::*;

verus! {

/// The lifecycle states a protocol context can report.
pub enum ContextState {
    Unconnected,
    Connecting,
    Authorizing,
    SettingName,
    Ready,
    Failed,
    Terminated,
}

/// What the bootstrap loop does after one poll of the context state.
#[derive(PartialEq, Eq, Structural)]
pub enum BootstrapStep {
    /// The context is ready: bootstrap succeeded.
    Done,
    /// The context can no longer become ready: bootstrap failed.
    Fail,
    /// Keep pumping the event loop and poll again.
    Wait,
}

/// The bootstrap decision for one observed context state: ready ends the
/// wait, a failed or terminated context can never become ready and fails
/// the bootstrap, and every other state means the connection attempt is
/// still in progress.
pub fn bootstrap_step(state: &ContextState) -> (r: BootstrapStep)
    ensures
        r == (match state {
            ContextState::Ready => BootstrapStep::Done,
            ContextState::Failed | ContextState::Terminated => BootstrapStep::Fail,
            _ => BootstrapStep::Wait,
        }),
{
    match state {
        ContextState::Ready => BootstrapStep::Done,
        ContextState::Failed | ContextState::Terminated => BootstrapStep::Fail,
        _ => BootstrapStep::Wait,
    }
}

/// What one pump of the event loop reported: some callbacks were
/// dispatched, the loop was asked to quit, or the pump itself failed.
pub enum IterateOutcome {
    Success(u32),
    Quit(i32),
    Failure,
}

/// Whether the worker may keep using its connection after one pump: only
/// a successful pump may be followed by further protocol calls; a quit or
/// an error is fatal to the worker that saw it.
pub fn pump_ok(outcome: &IterateOutcome) -> (r: bool)
    ensures
        r == (outcome matches IterateOutcome::Success(_)),
{
    match outcome {
        IterateOutcome::Success(_) => true,
        IterateOutcome::Quit(_) => false,
        IterateOutcome::Failure => false,
    }
}

} // verus!
