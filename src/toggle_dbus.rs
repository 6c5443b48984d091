//! The host-bus toggle listener, as an explicit state machine.
//!
//! The surrounding program binds the bus name, waits for calls, and feeds
//! each outcome to [`start_listening`], which says what to report and what
//! to wait for next.

use vstd::prelude::*;

verus! {

/// What the toggle listener reports.
#[derive(Debug, Clone, Copy, PartialEq, Eq, Structural)]
pub enum LauncherDbusEvent {
    /// A peer called the `toggle` method.
    Toggle,
}

/// Where the listener stands; `C` is the live bus connection.
#[derive(Debug, PartialEq, Eq)]
pub enum State<C> {
    /// Not bound yet.
    Ready,
    /// Bound, waiting for the next call.
    Waiting(C),
    /// The binding failed or the connection was lost; nothing more comes.
    Finished,
}

/// What the listener observed while in its current state.
#[derive(Debug, PartialEq, Eq)]
pub enum ListenerInput<C> {
    /// The name was bound on this connection.
    Bound(C),
    /// The name could not be bound.
    BindFailed,
    /// A call arrived.
    Received(LauncherDbusEvent),
    /// The connection was lost.
    Disconnected,
}

/// The listener's transition: the event to report and the next state.
/// An input that does not belong to the current state changes nothing.
pub open spec fn listener_step<C>(state: State<C>, input: ListenerInput<C>) -> (Option<LauncherDbusEvent>, State<C>) {
    match state {
        State::Ready => match input {
            ListenerInput::Bound(c) => (None, State::Waiting(c)),
            ListenerInput::BindFailed => (None, State::Finished),
            _ => (None, State::Ready),
        },
        State::Waiting(c) => match input {
            ListenerInput::Received(ev) => (Some(ev), State::Waiting(c)),
            ListenerInput::Disconnected => (None, State::Finished),
            _ => (None, State::Waiting(c)),
        },
        State::Finished => (None, State::Finished),
    }
}

/// One step of the listener. Each call received while bound is reported
/// exactly once; once finished, the listener reports nothing, ever.
pub fn start_listening<C>(state: State<C>, input: ListenerInput<C>) -> (r: (Option<LauncherDbusEvent>, State<C>))
    ensures
        r == listener_step(state, input),
        state is Finished ==> r.0.is_none() && r.1 is Finished,
        (state is Waiting && input is Received) ==> r.0 == Some(LauncherDbusEvent::Toggle) && r.1 is Waiting,
{
    match state {
        State::Ready => match input {
            ListenerInput::Bound(c) => (None, State::Waiting(c)),
            ListenerInput::BindFailed => (None, State::Finished),
            _ => (None, State::Ready),
        },
        State::Waiting(c) => match input {
            ListenerInput::Received(ev) => (Some(ev), State::Waiting(c)),
            ListenerInput::Disconnected => (None, State::Finished),
            _ => (None, State::Waiting(c)),
        },
        State::Finished => (None, State::Finished),
    }
}

} // verus!
