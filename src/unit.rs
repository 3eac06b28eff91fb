use vstd::prelude::*;
use crate::outcome::{ExitReport, Outcome, outcome_of_exit, outcome_from_exit};

verus! {

/// How long a unit waits before it races the cancellation signal against
/// its command, in milliseconds.
pub const POLL_INTERVAL_MS: u64 = 1000;

/// The life of one task within a batch: `Pending`, then `Running` once the
/// race between the cancellation signal and the command has begun, then a
/// terminal outcome that never changes again.
#[derive(Debug, PartialEq, Eq)]
pub enum UnitState {
    Pending,
    Running,
    Done(Outcome),
}

/// What a unit of work can report to the batch that supervises it.
#[derive(Debug)]
pub enum UnitEvent {
    /// The unit began racing the cancellation signal against its command.
    Started,
    /// The unit saw the cancellation signal before its command finished.
    CancelObserved,
    /// The command ran to its end first.
    Finished(ExitReport),
    /// The subshell could not be started; the message says why.
    SpawnFailed(Vec<u8>),
}

impl UnitState {
    pub open spec fn is_terminal_spec(self) -> bool {
        self is Done
    }

    /// Whether the unit has reached its outcome.
    pub fn is_terminal(&self) -> (r: bool)
        ensures
            r == self.is_terminal_spec(),
    {
        match self {
            UnitState::Done(_) => true,
            _ => false,
        }
    }
}

/// One transition of a unit. A terminal unit ignores every event; `Started`
/// moves a pending unit to `Running`; any other event ends the unit with the
/// outcome it carries.
pub open spec fn step(s: UnitState, e: UnitEvent) -> UnitState {
    match s {
        UnitState::Done(_) => s,
        _ => match e {
            UnitEvent::Started => UnitState::Running,
            UnitEvent::CancelObserved => UnitState::Done(Outcome::Cancelled),
            UnitEvent::Finished(r) => UnitState::Done(outcome_of_exit(r)),
            UnitEvent::SpawnFailed(msg) => UnitState::Done(Outcome::Failed { code: None, stderr: msg }),
        },
    }
}

/// The state that a unit which has not yet finished moves to on event `e`.
pub fn advance(e: UnitEvent) -> (r: UnitState)
    ensures
        r == step(UnitState::Running, e),
        r == step(UnitState::Pending, e),
{
    match e {
        UnitEvent::Started => UnitState::Running,
        UnitEvent::CancelObserved => UnitState::Done(Outcome::Cancelled),
        UnitEvent::Finished(r) => UnitState::Done(outcome_from_exit(r)),
        UnitEvent::SpawnFailed(msg) => UnitState::Done(Outcome::Failed { code: None, stderr: msg }),
    }
}

} // verus!
