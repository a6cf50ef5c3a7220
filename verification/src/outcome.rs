//! The final status of a download.

use vstd::prelude::*;

verus! {

/// The single final status of a session.
#[derive(Clone, Copy, Debug, PartialEq, Eq, Structural)]
pub enum TerminalOutcome {
    /// The availability probe did not succeed; nothing was downloaded.
    AvailabilityFailed,
    /// The downloader ran and exited with code 0.
    Success,
    /// The downloader did not come to a clean exit: it exited with the code
    /// given, or it could not be started or waited for and there is no code.
    ProcessError(Option<i32>),
    /// The download was cancelled and the downloader ended by force.
    Cancelled,
}

impl TerminalOutcome {
    /// A process error never carries the exit code of a success.
    pub open spec fn wf(self) -> bool {
        self != TerminalOutcome::ProcessError(Some(0i32))
    }

    /// The status that an exit code stands for: success for 0, a process
    /// error for any other code and for a process that left none.
    pub open spec fn of_exit(code: Option<i32>) -> TerminalOutcome {
        if code == Some(0i32) {
            TerminalOutcome::Success
        } else {
            TerminalOutcome::ProcessError(code)
        }
    }

    /// Classifies the exit of a downloader that was left to run to its end.
    pub fn from_exit(code: Option<i32>) -> (outcome: TerminalOutcome)
        ensures
            outcome == Self::of_exit(code),
            outcome.wf(),
    {
        match code {
            Some(0) => TerminalOutcome::Success,
            _ => TerminalOutcome::ProcessError(code),
        }
    }

    /// Whether the download went through.
    pub fn is_success(&self) -> (success: bool)
        ensures
            success == (*self == TerminalOutcome::Success),
    {
        match self {
            TerminalOutcome::Success => true,
            _ => false,
        }
    }
}

} // verus!
