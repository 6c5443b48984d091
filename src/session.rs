//! The backend session driver, as an explicit state machine.
//!
//! The surrounding program connects to the search backend and reads its
//! responses; [`drive`] turns each outcome into the event that the
//! orchestrator receives and the state to continue in.

use vstd::prelude::*;
use crate::protocol::{LauncherEvent, LauncherResponse};

verus! {

/// Where the driver stands; `C` is the live connection.
#[derive(Debug, PartialEq, Eq)]
pub enum DriverState<C> {
    /// Not connected yet.
    Ready,
    /// Connected, reading responses.
    Running(C),
    /// The connection failed or ended; nothing more comes.
    Finished,
}

/// What the driver observed while in its current state.
#[derive(Debug, PartialEq, Eq)]
pub enum DriverInput<C> {
    /// The connection was established.
    Connected(C),
    /// The connection could not be established, for this reason.
    ConnectFailed(String),
    /// A response was read.
    Received(LauncherResponse),
    /// Reading or decoding failed, for this reason.
    Failed(String),
    /// The backend closed its side.
    Ended,
}

/// The text reported when the backend closes its side.
pub open spec fn ended_message() -> Seq<char> {
    "the search backend exited"@
}

/// The event that an observation yields, where it yields one.
pub open spec fn driver_event<C>(state: DriverState<C>, input: DriverInput<C>) -> Option<LauncherEvent> {
    match state {
        DriverState::Ready => match input {
            DriverInput::Connected(_) => Some(LauncherEvent::Started),
            DriverInput::ConnectFailed(m) => Some(LauncherEvent::Error(m)),
            _ => None,
        },
        DriverState::Running(_) => match input {
            DriverInput::Received(r) => Some(LauncherEvent::Response(r)),
            DriverInput::Failed(m) => Some(LauncherEvent::Error(m)),
            _ => None,
        },
        DriverState::Finished => None,
    }
}

/// The state after an observation. An input that does not belong to the
/// current state changes nothing.
pub open spec fn driver_next<C>(state: DriverState<C>, input: DriverInput<C>) -> DriverState<C> {
    match state {
        DriverState::Ready => match input {
            DriverInput::Connected(c) => DriverState::Running(c),
            DriverInput::ConnectFailed(_) => DriverState::Finished,
            _ => DriverState::Ready,
        },
        DriverState::Running(c) => match input {
            DriverInput::Failed(_) | DriverInput::Ended => DriverState::Finished,
            _ => DriverState::Running(c),
        },
        DriverState::Finished => DriverState::Finished,
    }
}

/// One step of the driver: a connection yields `Started` once; each
/// response read is passed on; a failure or the backend's exit yields one
/// `Error` and ends the session for good.
pub fn drive<C>(state: DriverState<C>, input: DriverInput<C>) -> (r: (Option<LauncherEvent>, DriverState<C>))
    ensures
        r.1 == driver_next(state, input),
        (state is Running && input is Ended) ==> (match r.0 {
            Some(LauncherEvent::Error(m)) => m@ == ended_message(),
            _ => false,
        }),
        !(state is Running && input is Ended) ==> r.0 == driver_event(state, input),
{
    match state {
        DriverState::Ready => match input {
            DriverInput::Connected(c) => (Some(LauncherEvent::Started), DriverState::Running(c)),
            DriverInput::ConnectFailed(m) => (Some(LauncherEvent::Error(m)), DriverState::Finished),
            _ => (None, DriverState::Ready),
        },
        DriverState::Running(c) => match input {
            DriverInput::Received(r) => (Some(LauncherEvent::Response(r)), DriverState::Running(c)),
            DriverInput::Failed(m) => (Some(LauncherEvent::Error(m)), DriverState::Finished),
            DriverInput::Ended => {
                let m = String::from_str("the search backend exited");
                proof {
                    reveal_strlit("the search backend exited");
                }
                (Some(LauncherEvent::Error(m)), DriverState::Finished)
            },
            _ => (None, DriverState::Running(c)),
        },
        DriverState::Finished => (None, DriverState::Finished),
    }
}

} // verus!
