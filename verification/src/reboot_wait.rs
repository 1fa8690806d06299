//! The decisions of waiting for a probe to come back on the bus after a reboot: whether to stop,
//! fail for want of time, or search again, and whether a search reports what it found.
use vstd::prelude::*;

verus! {

/// What the last search for the rebooting probe came to.
#[derive(Debug, Clone, Copy, PartialEq, Eq, Structural)]
pub enum SearchOutcome {
    /// The probe was found.
    Found,
    /// No probe was found at its port.
    NotFound,
    /// The search failed some other way.
    Failed,
}

/// What to do next while waiting for a probe to reboot.
#[derive(Debug, Clone, Copy, PartialEq, Eq, Structural)]
pub enum RebootWaitStep {
    /// Stop waiting and hand on what the last search came to.
    Finish,
    /// The probe did not come back in time.
    TimedOut,
    /// Pause, then search again.
    SearchAgain,
}

/// What to do after a search, `elapsed_nanos` into a wait that may last `timeout_nanos`: a
/// search that found the probe or failed ends the wait; otherwise the wait fails once it has
/// lasted longer than the timeout, and goes on before that.
pub open spec fn spec_reboot_wait_step(outcome: SearchOutcome, elapsed_nanos: u128, timeout_nanos: u128) -> RebootWaitStep {
    match outcome {
        SearchOutcome::NotFound => if elapsed_nanos > timeout_nanos {
            RebootWaitStep::TimedOut
        } else {
            RebootWaitStep::SearchAgain
        },
        _ => RebootWaitStep::Finish,
    }
}

/// Decides what to do after a search (see [`spec_reboot_wait_step`]).
pub fn reboot_wait_step(outcome: SearchOutcome, elapsed_nanos: u128, timeout_nanos: u128) -> (r: RebootWaitStep)
    ensures
        r == spec_reboot_wait_step(outcome, elapsed_nanos, timeout_nanos),
{
    match outcome {
        SearchOutcome::NotFound => if elapsed_nanos > timeout_nanos {
            RebootWaitStep::TimedOut
        } else {
            RebootWaitStep::SearchAgain
        },
        _ => RebootWaitStep::Finish,
    }
}

/// Whether a search `elapsed_nanos` into the wait reports what it found: only in the second half
/// of the wait, once more than half the timeout has passed; earlier searches stay silent.
pub fn search_reports(elapsed_nanos: u128, timeout_nanos: u128) -> (r: bool)
    ensures
        r == (elapsed_nanos > timeout_nanos / 2),
{
    elapsed_nanos > timeout_nanos / 2
}

} // verus!
