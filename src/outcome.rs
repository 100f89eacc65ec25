//! How the driver classifies the end of one dispatched instruction.

use vstd::prelude::*;

verus! {

/// How a dispatched host call ended.
#[derive(Clone, Copy, Debug, PartialEq, Eq, Structural)]
pub enum Outcome {
    /// The host function returned normally.
    Returned,
    /// The host function reported a failure as a structured error.
    ErrorReturned,
    /// The host panicked: the call never returned.
    Faulted,
}

/// What the driver does next.
#[derive(Clone, Copy, Debug, PartialEq, Eq, Structural)]
pub enum Verdict {
    /// Go on with the next instruction or iteration.
    Continue,
    /// Stop the iteration loudly, after printing the diagnostic log when
    /// `print_log` holds.
    Abort { print_log: bool },
}

/// The driver's decision after one dispatch: a normal return and a
/// structured error both let the iteration go on; a fault aborts it, and
/// the diagnostic log is printed first when it holds anything.
pub fn classify(outcome: Outcome, log_is_empty: bool) -> (r: Verdict)
    ensures
        r is Continue <==> outcome !is Faulted,
        outcome is Faulted ==> r == (Verdict::Abort { print_log: !log_is_empty }),
{
    match outcome {
        Outcome::Returned => Verdict::Continue,
        Outcome::ErrorReturned => Verdict::Continue,
        Outcome::Faulted => Verdict::Abort { print_log: !log_is_empty },
    }
}

} // verus!
