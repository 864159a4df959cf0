//! The decisions of a whole run: init, start, poll until a stop is asked
//! for, stop, clean up. The caller performs each action and reports back.

use vstd::prelude::*;

use crate::error::Error;

verus! {

/// Where a run stands.
#[derive(Debug, Clone, Copy, PartialEq, Eq, Structural)]
pub enum RunState {
    Begin,
    Initializing,
    Starting,
    Polling,
    Waiting,
    Stopping,
    CleaningUp,
    Done,
}

/// What the last action reported.
#[derive(Debug, Clone, Copy, PartialEq, Eq)]
pub enum RunEvent {
    /// The result of init, start, a wait, stop or cleanup.
    Status(Result<(), Error>),
    /// Whether the native layer asks to stop.
    StopFlag(bool),
}

/// What the caller is to do next.
#[derive(Debug, Clone, Copy, PartialEq, Eq)]
pub enum RunAction {
    Init,
    Start,
    Poll,
    /// Sleep for the poll interval, then report `Status(Ok(()))`.
    Sleep,
    Stop,
    Cleanup,
    /// The run is over, with this result.
    Return(Result<(), Error>),
}

/// Whether `event` is the kind of report that `state` waits for.
pub open spec fn fits(state: RunState, event: RunEvent) -> bool {
    match state {
        RunState::Begin => true,
        RunState::Polling => event is StopFlag,
        RunState::Done => false,
        _ => event is Status,
    }
}

/// The next state and action of a run. A failed init or start ends the run
/// with that error, with no stop and no cleanup; a stop request leads to
/// stop, then cleanup, then `Ok(())`.
pub fn run_step(state: RunState, event: RunEvent) -> (r: (RunState, RunAction))
    requires
        fits(state, event),
    ensures
        state == RunState::Begin ==> r == (RunState::Initializing, RunAction::Init),
        state == RunState::Initializing && event == RunEvent::Status(Ok(())) ==> r == (
            RunState::Starting,
            RunAction::Start,
        ),
        state == RunState::Starting && event == RunEvent::Status(Ok(())) ==> r == (
            RunState::Polling,
            RunAction::Poll,
        ),
        (state == RunState::Initializing || state == RunState::Starting) && event is Status
            && event->Status_0 is Err ==> r == (RunState::Done, RunAction::Return(event->Status_0)),
        state == RunState::Polling && event == RunEvent::StopFlag(false) ==> r == (
            RunState::Waiting,
            RunAction::Sleep,
        ),
        state == RunState::Polling && event == RunEvent::StopFlag(true) ==> r == (
            RunState::Stopping,
            RunAction::Stop,
        ),
        state == RunState::Waiting ==> r == (RunState::Polling, RunAction::Poll),
        state == RunState::Stopping ==> r == (RunState::CleaningUp, RunAction::Cleanup),
        state == RunState::CleaningUp ==> r == (RunState::Done, RunAction::Return(Ok(()))),
{
    match state {
        RunState::Begin => (RunState::Initializing, RunAction::Init),
        RunState::Initializing => match event {
            RunEvent::Status(Ok(())) => (RunState::Starting, RunAction::Start),
            RunEvent::Status(Err(e)) => (RunState::Done, RunAction::Return(Err(e))),
            RunEvent::StopFlag(_) => (RunState::Done, RunAction::Return(Err(Error::Init))),
        },
        RunState::Starting => match event {
            RunEvent::Status(Ok(())) => (RunState::Polling, RunAction::Poll),
            RunEvent::Status(Err(e)) => (RunState::Done, RunAction::Return(Err(e))),
            RunEvent::StopFlag(_) => (RunState::Done, RunAction::Return(Err(Error::Start))),
        },
        RunState::Polling => match event {
            RunEvent::StopFlag(true) => (RunState::Stopping, RunAction::Stop),
            _ => (RunState::Waiting, RunAction::Sleep),
        },
        RunState::Waiting => (RunState::Polling, RunAction::Poll),
        RunState::Stopping => (RunState::CleaningUp, RunAction::Cleanup),
        RunState::CleaningUp => (RunState::Done, RunAction::Return(Ok(()))),
        RunState::Done => (RunState::Done, RunAction::Return(Ok(()))),
    }
}

} // verus!
