//! The fault boundary around initialisation and payload logic: what it does
//! with each way a run can end, and the report the fault hook writes.

use vstd::prelude::*;
use vstd::string::StringExecFns;

verus! {

/// How a run of initialisation and payload ended.
pub enum PayloadOutcome {
    /// It returned without surfacing an error.
    Completed,
    /// It returned a recoverable error, described by the message.
    Failed(String),
    /// It faulted; the installed hook has already reported the fault.
    Faulted,
}

/// Where the boundary leaves a run. In every case control returns normally
/// to the caller of the initialisation entry point.
pub enum Settled {
    /// Nothing to do.
    Completed,
    /// Log this message once, and do not raise it again.
    ErrorLogged(String),
    /// Abandon the fault's payload without dropping it: the hook has logged it.
    FaultHandled,
}

/// What the boundary makes of an outcome.
pub open spec fn settled(outcome: PayloadOutcome) -> Settled {
    match outcome {
        PayloadOutcome::Completed => Settled::Completed,
        PayloadOutcome::Failed(message) => Settled::ErrorLogged(message),
        PayloadOutcome::Faulted => Settled::FaultHandled,
    }
}

/// Log lines the installed hooks write for one run: each hook writes one for
/// a fault, nothing otherwise.
pub open spec fn hook_lines(hooks: nat, outcome: PayloadOutcome) -> nat {
    if outcome is Faulted {
        hooks
    } else {
        0
    }
}

/// Log lines the boundary itself writes once it has settled a run.
pub open spec fn boundary_lines(s: Settled) -> nat {
    if s is ErrorLogged {
        1
    } else {
        0
    }
}

/// The report of a fault: its description, followed in debug builds by the
/// captured backtrace under a heading of its own.
pub open spec fn report_of(description: Seq<char>, backtrace: Option<Seq<char>>) -> Seq<char> {
    match backtrace {
        None => description,
        Some(b) => description + "\n\nstack backtrace:\n"@ + b,
    }
}

/// Settles a run at the boundary.
pub fn settle(outcome: PayloadOutcome) -> (r: Settled)
    ensures
        r == settled(outcome),
{
    match outcome {
        PayloadOutcome::Completed => Settled::Completed,
        PayloadOutcome::Failed(message) => Settled::ErrorLogged(message),
        PayloadOutcome::Faulted => Settled::FaultHandled,
    }
}

/// The line the fault hook logs for a fault with this description, and with
/// the backtrace a debug build captured.
pub fn fault_report(description: String, backtrace: Option<String>) -> (r: String)
    ensures
        r@ == report_of(description@, match backtrace {
            Some(b) => Some(b@),
            None => None,
        }),
{
    match backtrace {
        None => description,
        Some(b) => description.concat("\n\nstack backtrace:\n").concat(b.as_str()),
    }
}

} // verus!
