//! Remote-execution outcomes: the uniform result of running one command
//! through the transport, the selection of the text shown to the operator,
//! and the startup connectivity verdict.

use vstd::prelude::*;
use vstd::string::*;
use crate::text::trim_spec;

verus! {

/// The result of executing one remote command: produced exactly once per
/// command, immutable after creation.
pub struct ExecutionOutcome {
    /// Whether the remote command exited successfully.
    pub succeeded: bool,
    /// Captured standard output of the remote command.
    pub stdout: String,
    /// Captured standard error of the remote command.
    pub stderr: String,
    /// Wall-clock time the round trip took, in milliseconds.
    pub elapsed_millis: u64,
}

/// The text reported to the operator for an outcome: standard output when
/// the command succeeded, standard error when it failed.
pub open spec fn report_spec(outcome: &ExecutionOutcome) -> Seq<char> {
    if outcome.succeeded {
        outcome.stdout@
    } else {
        outcome.stderr@
    }
}

/// The startup connectivity verdict for an outcome: the elapsed measurement
/// when the no-op command succeeded, nothing when the host is unreachable
/// (the caller must then abort before any mode loop runs).
pub open spec fn connection_report_spec(outcome: &ExecutionOutcome) -> Option<u64> {
    if outcome.succeeded {
        Some(outcome.elapsed_millis)
    } else {
        None
    }
}

impl ExecutionOutcome {
    /// Normalizes the raw pieces a transport call yields into one outcome.
    pub fn new(succeeded: bool, stdout: String, stderr: String, elapsed_millis: u64) -> (r:
        ExecutionOutcome)
        ensures
            r.succeeded == succeeded,
            r.stdout@ == stdout@,
            r.stderr@ == stderr@,
            r.elapsed_millis == elapsed_millis,
    {
        ExecutionOutcome { succeeded, stdout, stderr, elapsed_millis }
    }

    /// The text to print for this outcome: stdout on success, stderr on
    /// failure.
    pub fn report(&self) -> (r: &String)
        ensures
            r@ == report_spec(self),
    {
        if self.succeeded {
            &self.stdout
        } else {
            &self.stderr
        }
    }
}

/// Judges the startup connectivity self-test: `Some` with the elapsed
/// measurement exactly when the remote host answered the no-op command;
/// `None` exactly when it did not, in which case startup must abort.
pub fn test_connection(outcome: &ExecutionOutcome) -> (r: Option<u64>)
    ensures
        r == connection_report_spec(outcome),
        r is Some <==> outcome.succeeded,
{
    if outcome.succeeded {
        Some(outcome.elapsed_millis)
    } else {
        None
    }
}

/// Picks the operator's display name from the name lookup's outcome: the
/// trimmed lookup output when it succeeded, a fixed fallback otherwise.
pub fn check_name(succeeded: bool, stdout: &str) -> (r: String)
    ensures
        r@ == (if succeeded {
            trim_spec(stdout@)
        } else {
            "user"@
        }),
{
    if succeeded {
        String::from_str(crate::text::trim(stdout))
    } else {
        String::from_str("user")
    }
}

} // verus!
