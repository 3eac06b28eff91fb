use vstd::prelude::*;

verus! {

/// What the subshell reported once it exited.
#[derive(Clone, Debug, PartialEq, Eq)]
pub struct ExitReport {
    /// Whether the process exited with a success status.
    pub success: bool,
    /// The exit code, when the process exited normally rather than by a signal.
    pub code: Option<i32>,
    pub stdout: Vec<u8>,
    pub stderr: Vec<u8>,
}

/// The terminal outcome of one task in a batch.
#[derive(Clone, Debug, PartialEq, Eq)]
pub enum Outcome {
    Succeeded { stdout: Vec<u8> },
    Failed { code: Option<i32>, stderr: Vec<u8> },
    Cancelled,
}

/// The outcome that an exit report stands for.
pub open spec fn outcome_of_exit(r: ExitReport) -> Outcome {
    if r.success {
        Outcome::Succeeded { stdout: r.stdout }
    } else {
        Outcome::Failed { code: r.code, stderr: r.stderr }
    }
}

/// Turns what the subshell reported into the task's outcome.
pub fn outcome_from_exit(r: ExitReport) -> (o: Outcome)
    ensures
        o == outcome_of_exit(r),
{
    if r.success {
        Outcome::Succeeded { stdout: r.stdout }
    } else {
        Outcome::Failed { code: r.code, stderr: r.stderr }
    }
}

} // verus!
