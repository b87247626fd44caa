use vstd::prelude::*;

use crate::limits::STOP_POLL_INTERVAL_NS;
use crate::wire::Failure;

verus! {

/// How long the next wait lasts when time remains: the remaining time, cut to
/// one stop-poll interval.
pub open spec fn wait_slice(remaining_ns: u128) -> u128 {
    if remaining_ns < STOP_POLL_INTERVAL_NS {
        remaining_ns
    } else {
        STOP_POLL_INTERVAL_NS
    }
}

/// What one bounded wait on the handler's answer channel returned.
#[derive(Debug)]
pub enum PollOutcome {
    /// The handler answered with data.
    Answered(serde_json::Value),
    /// The handler answered with an error message.
    HandlerFailed(String),
    /// The handler went away without answering.
    Disconnected,
    /// Nothing arrived during the wait.
    TimedOut,
}

/// Decided before each wait on the handler: give up because the transport is
/// stopping (checked first) or because no time remains, or wait for at most
/// the remaining time and at most one stop-poll interval.
pub fn next_wait(stopping: bool, remaining_ns: u128) -> (res: Result<u128, Failure>)
    ensures
        stopping ==> (res matches Err(f) && f.class@ == "unavailable"@ && f.message@
            == "transport is stopping"@),
        !stopping && remaining_ns == 0 ==> (res matches Err(f) && f.class@ == "timeout"@
            && f.message@ == "editor handler timed out"@),
        !stopping && remaining_ns > 0 ==> (res matches Ok(wait_ns) && wait_ns == wait_slice(
            remaining_ns,
        )),
{
    if stopping {
        return Err(Failure::new("unavailable", "transport is stopping".to_owned()));
    }
    if remaining_ns == 0 {
        return Err(Failure::new("timeout", "editor handler timed out".to_owned()));
    }
    if remaining_ns < STOP_POLL_INTERVAL_NS {
        Ok(remaining_ns)
    } else {
        Ok(STOP_POLL_INTERVAL_NS)
    }
}

/// Decided after each wait: the handler's data, its error as a
/// `handler_error`, `unavailable` when it went away, or `None` to wait again.
pub fn after_wait(outcome: PollOutcome) -> (res: Option<Result<serde_json::Value, Failure>>)
    ensures
        match outcome {
            PollOutcome::Answered(data) => res matches Some(Ok(d)) && d == data,
            PollOutcome::HandlerFailed(message) => res matches Some(Err(f)) && f.class@
                == "handler_error"@ && f.message@ == message@,
            PollOutcome::Disconnected => res matches Some(Err(f)) && f.class@ == "unavailable"@
                && f.message@ == "editor handler unavailable"@,
            PollOutcome::TimedOut => res is None,
        },
{
    match outcome {
        PollOutcome::Answered(data) => Some(Ok(data)),
        PollOutcome::HandlerFailed(message) => Some(Err(Failure::new("handler_error", message))),
        PollOutcome::Disconnected => Some(
            Err(Failure::new("unavailable", "editor handler unavailable".to_owned())),
        ),
        PollOutcome::TimedOut => None,
    }
}

/// Each wait is positive, no longer than the time that remains and no longer
/// than one stop-poll interval, so a stop request is seen within that interval
/// and the deadline is never overrun by a wait.
pub proof fn law_waits_are_bounded(remaining_ns: u128)
    requires
        remaining_ns > 0,
    ensures
        0 < wait_slice(remaining_ns) <= remaining_ns,
        wait_slice(remaining_ns) <= STOP_POLL_INTERVAL_NS,
{
}

/// A wait is the whole remaining time when less than 20 ms remain, and
/// exactly 20 ms otherwise.
pub proof fn law_waits_are_the_remaining_time_cut_to_the_interval(remaining_ns: u128)
    ensures
        remaining_ns < 20_000_000 ==> wait_slice(remaining_ns) == remaining_ns,
        remaining_ns >= 20_000_000 ==> wait_slice(remaining_ns) == 20_000_000,
{
}

} // verus!
