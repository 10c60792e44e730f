//! The timed dispatcher: one backend call raced against a deadline.
//!
//! The race itself needs a clock and is run by the caller. What the race
//! decides is stated here, and so is how its result is classified.

use vstd::prelude::*;
use crate::error::{BackendError, OutcomeKind};

verus! {

/// What the backend answers to a get.
#[derive(Debug, Clone, Copy, PartialEq, Eq, Structural)]
pub enum GetResponse {
    /// The key holds a value.
    Found,
    /// The key holds nothing.
    NotFound,
}

/// What the race between one backend call and the deadline ended in.
#[derive(Debug, PartialEq, Eq)]
pub enum Dispatched<R> {
    /// The backend answered first: its answer, unchanged.
    Returned(Result<R, BackendError>),
    /// The deadline passed first. The call is no longer awaited.
    TimedOut,
}

/// The result of racing a call against a deadline of `request_timeout`
/// nanoseconds, where the backend would answer `reply` after `latency`
/// nanoseconds, or never (`None`): the reply where the backend is strictly
/// faster than the deadline, a timeout otherwise.
pub open spec fn race<R>(
    request_timeout: u64,
    latency: Option<u64>,
    reply: Result<R, BackendError>,
) -> Dispatched<R> {
    match latency {
        Some(nanos) => if nanos < request_timeout {
            Dispatched::Returned(reply)
        } else {
            Dispatched::TimedOut
        },
        None => Dispatched::TimedOut,
    }
}

impl<R> Dispatched<R> {
    /// The one outcome kind that a dispatched operation counts as.
    pub open spec fn outcome(self) -> OutcomeKind {
        match self {
            Dispatched::Returned(Ok(_)) => OutcomeKind::Success,
            Dispatched::Returned(Err(error)) => error.outcome(),
            Dispatched::TimedOut => OutcomeKind::Timeout,
        }
    }

    /// Decides the race of one call against the deadline. A backend that
    /// never answers, or answers at the deadline or after it, loses: what it
    /// would have answered plays no part in the result.
    pub fn timed(
        request_timeout: u64,
        latency: Option<u64>,
        reply: Result<R, BackendError>,
    ) -> (result: Dispatched<R>)
        ensures
            result == race(request_timeout, latency, reply),
    {
        match latency {
            Some(nanos) => {
                if nanos < request_timeout {
                    Dispatched::Returned(reply)
                } else {
                    Dispatched::TimedOut
                }
            },
            None => Dispatched::TimedOut,
        }
    }

    /// Classifies the result of a dispatch.
    pub fn classify(&self) -> (kind: OutcomeKind)
        ensures
            kind == self.outcome(),
    {
        match self {
            Dispatched::Returned(Ok(_)) => OutcomeKind::Success,
            Dispatched::Returned(Err(error)) => error.classify(),
            Dispatched::TimedOut => OutcomeKind::Timeout,
        }
    }
}

} // verus!
