//! The per-connection emitter: a two-state machine that turns one
//! subscription's outcomes into outbound events for one remote listener,
//! while staying responsive to cancellation.
//!
//! The surrounding connection loop races the subscription against the
//! listener's cancellation signal and feeds whichever fires first into
//! [`emitter_step`]; the step decides the next state and what to do, and
//! the loop performs it. The loop itself only waits, steps and performs —
//! every decision is made here.

use vstd::prelude::*;

use crate::bus::Outcome;
use crate::message::Message;

verus! {

/// The emitter's state: it is either still serving its listener or done.
/// `Terminated` is the sole terminal state; entering it releases the
/// connection on every exit path.
#[derive(Debug, PartialEq, Eq, Clone, Copy)]
pub enum EmitterState {
    Running,
    Terminated,
}

/// What the connection loop's race resolved with: a receive outcome, or
/// the cancellation signal firing first.
#[derive(Debug, PartialEq, Eq)]
pub enum EmitterEvent {
    Received(Outcome),
    Cancelled,
}

/// What the connection loop must do after a step.
#[derive(Debug, PartialEq, Eq)]
pub enum EmitterAction {
    /// Serialize and emit this message to the remote listener.
    Emit(Message),
    /// Keep waiting; nothing is emitted for a lag notice.
    Continue,
    /// Release the connection's resources and stop the loop.
    Stop,
}

/// The whole transition relation: a running emitter forwards each message,
/// silently skips over a lag, and terminates on closure or cancellation; a
/// terminated emitter only ever stops.
pub open spec fn step_model(state: EmitterState, event: EmitterEvent) -> (
    EmitterState,
    EmitterAction,
) {
    match state {
        EmitterState::Terminated => (EmitterState::Terminated, EmitterAction::Stop),
        EmitterState::Running => match event {
            EmitterEvent::Received(Outcome::Message(m)) => (
                EmitterState::Running,
                EmitterAction::Emit(m),
            ),
            EmitterEvent::Received(Outcome::Lagged(_)) => (
                EmitterState::Running,
                EmitterAction::Continue,
            ),
            EmitterEvent::Received(Outcome::Closed) => (
                EmitterState::Terminated,
                EmitterAction::Stop,
            ),
            EmitterEvent::Cancelled => (EmitterState::Terminated, EmitterAction::Stop),
        },
    }
}

/// One transition of the emitter: exactly [`step_model`]. The message, if
/// any, is passed through unchanged — the emitter never inspects it.
pub fn emitter_step(state: EmitterState, event: EmitterEvent) -> (r: (EmitterState, EmitterAction))
    ensures
        r == step_model(state, event),
{
    match state {
        EmitterState::Terminated => (EmitterState::Terminated, EmitterAction::Stop),
        EmitterState::Running => match event {
            EmitterEvent::Received(Outcome::Message(m)) => (
                EmitterState::Running,
                EmitterAction::Emit(m),
            ),
            EmitterEvent::Received(Outcome::Lagged(_)) => (
                EmitterState::Running,
                EmitterAction::Continue,
            ),
            EmitterEvent::Received(Outcome::Closed) => (
                EmitterState::Terminated,
                EmitterAction::Stop,
            ),
            EmitterEvent::Cancelled => (EmitterState::Terminated, EmitterAction::Stop),
        },
    }
}

} // verus!
