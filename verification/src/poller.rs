//! The event-ring poll policy.
//!
//! A single long-lived background task drains the sampled-event channel:
//! it polls with a fixed timeout and dispatches every drained event to the
//! callback registered at channel creation.  No supervisor restarts the
//! task, so a transient poll failure must never terminate the loop; it is
//! logged and the next poll attempt happens anyway.  The decision made
//! after each poll is verified here; the unverified shell owns the channel
//! handle and performs the polls.

use vstd::prelude::*;

verus! {

/// What the poll loop does after one poll returns: always another poll
/// with the fixed timeout — there is no stopping decision to make, which
/// is exactly the policy — preceded by an error log when the poll failed.
#[derive(Clone, Copy, Debug, PartialEq, Eq, Structural)]
pub enum PollAction {
    /// Poll again with the fixed timeout, logging an error first when the
    /// previous poll failed.
    PollAgain { log_error: bool },
}

/// The fixed poll timeout, in milliseconds.
pub fn poll_timeout_ms() -> (t: u64)
    ensures
        t == 100,
{
    100
}

/// Decides what the poll loop does with one poll result: a negative
/// result is a failure that is logged and survived; every result, failure
/// or not, is followed by the next poll.  The loop can never be told to
/// stop.
pub fn poll_step(result: i32) -> (a: PollAction)
    ensures
        a == (PollAction::PollAgain { log_error: result < 0 }),
{
    PollAction::PollAgain { log_error: result < 0 }
}

} // verus!
