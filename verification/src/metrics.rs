//! The metrics registry: counters per operation and outcome, and the
//! latencies of the operations that succeeded.
//!
//! A registry is an ordinary value that is handed to every function that
//! counts. Counters only ever grow: one that has reached `u64::MAX` stays
//! there.

use vstd::prelude::*;
use crate::error::OutcomeKind;
use crate::workload::OpKind;

verus! {

/// A counter after one more event: the next number, or `u64::MAX` where the
/// counter is already there.
pub open spec fn bumped(count: u64) -> u64 {
    if count < u64::MAX {
        (count + 1) as u64
    } else {
        count
    }
}

/// Counts one more event on `count`.
pub fn bump(count: &mut u64)
    ensures
        *final(count) == bumped(*old(count)),
{
    *count = count.saturating_add(1);
}

/// The counters of one operation type: how many were attempted, and how many
/// ended in each outcome.
#[derive(Debug, Clone, Copy, PartialEq, Eq, Structural)]
pub struct OpCounters {
    pub attempted: u64,
    pub ok: u64,
    pub exception: u64,
    pub timeout: u64,
    pub ratelimited: u64,
    pub backend_timeout: u64,
}

impl OpCounters {
    /// Counters that have seen nothing.
    pub open spec fn zero() -> OpCounters {
        OpCounters {
            attempted: 0,
            ok: 0,
            exception: 0,
            timeout: 0,
            ratelimited: 0,
            backend_timeout: 0,
        }
    }

    /// The number of operations that have ended, whatever in.
    pub open spec fn settled(self) -> int {
        self.ok + self.exception + self.timeout + self.ratelimited + self.backend_timeout
    }

    /// The number of operations that were attempted and have not ended.
    pub open spec fn in_flight(self) -> int {
        self.attempted - self.settled()
    }

    /// The counters after one more attempt.
    pub open spec fn with_attempt(self) -> OpCounters {
        OpCounters { attempted: bumped(self.attempted), ..self }
    }

    /// The counters after one more operation ended in `outcome`.
    pub open spec fn with_outcome(self, outcome: OutcomeKind) -> OpCounters {
        match outcome {
            OutcomeKind::Success => OpCounters { ok: bumped(self.ok), ..self },
            OutcomeKind::Exception => OpCounters { exception: bumped(self.exception), ..self },
            OutcomeKind::Timeout => OpCounters { timeout: bumped(self.timeout), ..self },
            OutcomeKind::RateLimited => OpCounters {
                ratelimited: bumped(self.ratelimited),
                ..self
            },
            OutcomeKind::BackendTimeout => OpCounters {
                backend_timeout: bumped(self.backend_timeout),
                ..self
            },
        }
    }

    /// Counters that have seen nothing.
    pub fn new() -> (counters: OpCounters)
        ensures
            counters == OpCounters::zero(),
    {
        OpCounters {
            attempted: 0,
            ok: 0,
            exception: 0,
            timeout: 0,
            ratelimited: 0,
            backend_timeout: 0,
        }
    }

    /// Counts one more attempt.
    pub fn record_attempt(&mut self)
        ensures
            *final(self) == old(self).with_attempt(),
    {
        bump(&mut self.attempted);
    }

    /// Counts one more operation that ended in `outcome`: exactly one of the
    /// five outcome counters moves.
    pub fn record_outcome(&mut self, outcome: OutcomeKind)
        ensures
            *final(self) == old(self).with_outcome(outcome),
    {
        match outcome {
            OutcomeKind::Success => bump(&mut self.ok),
            OutcomeKind::Exception => bump(&mut self.exception),
            OutcomeKind::Timeout => bump(&mut self.timeout),
            OutcomeKind::RateLimited => bump(&mut self.ratelimited),
            OutcomeKind::BackendTimeout => bump(&mut self.backend_timeout),
        }
    }
}

/// The registry that workers and the launcher report into.
#[derive(Debug, PartialEq, Eq)]
pub struct Metrics {
    pub get: OpCounters,
    pub put: OpCounters,
    pub delete: OpCounters,
    /// Gets that found their key.
    pub get_key_hit: u64,
    /// Gets that found nothing under their key.
    pub get_key_miss: u64,
    /// Work items of a kind that is not dispatched.
    pub request_unsupported: u64,
    /// Connections made since the start.
    pub connect: u64,
    /// Connections that are open now.
    pub connect_curr: u64,
    /// The latency in nanoseconds of each operation that succeeded, oldest
    /// first.
    pub response_latency: Vec<u64>,
}

/// What a registry holds, as a mathematical value.
pub struct MetricsView {
    pub get: OpCounters,
    pub put: OpCounters,
    pub delete: OpCounters,
    pub get_key_hit: u64,
    pub get_key_miss: u64,
    pub request_unsupported: u64,
    pub connect: u64,
    pub connect_curr: u64,
    pub response_latency: Seq<u64>,
}

impl View for Metrics {
    type V = MetricsView;

    open spec fn view(&self) -> MetricsView {
        MetricsView {
            get: self.get,
            put: self.put,
            delete: self.delete,
            get_key_hit: self.get_key_hit,
            get_key_miss: self.get_key_miss,
            request_unsupported: self.request_unsupported,
            connect: self.connect,
            connect_curr: self.connect_curr,
            response_latency: self.response_latency@,
        }
    }
}

impl MetricsView {
    /// A registry that has seen nothing.
    pub open spec fn fresh() -> MetricsView {
        MetricsView {
            get: OpCounters::zero(),
            put: OpCounters::zero(),
            delete: OpCounters::zero(),
            get_key_hit: 0,
            get_key_miss: 0,
            request_unsupported: 0,
            connect: 0,
            connect_curr: 0,
            response_latency: Seq::empty(),
        }
    }

    /// The counters of the operations of one kind.
    pub open spec fn counters(self, kind: OpKind) -> OpCounters {
        match kind {
            OpKind::Get => self.get,
            OpKind::Put => self.put,
            OpKind::Delete => self.delete,
        }
    }

    /// The registry with `counters` in the place of those of one kind.
    pub open spec fn with_counters(self, kind: OpKind, counters: OpCounters) -> MetricsView {
        match kind {
            OpKind::Get => MetricsView { get: counters, ..self },
            OpKind::Put => MetricsView { put: counters, ..self },
            OpKind::Delete => MetricsView { delete: counters, ..self },
        }
    }

    /// The registry after one more operation of `kind` was attempted.
    pub open spec fn with_attempt(self, kind: OpKind) -> MetricsView {
        self.with_counters(kind, self.counters(kind).with_attempt())
    }

    /// The registry after one more operation of `kind` ended in `outcome`.
    pub open spec fn with_outcome(self, kind: OpKind, outcome: OutcomeKind) -> MetricsView {
        self.with_counters(kind, self.counters(kind).with_outcome(outcome))
    }

    /// The registry after one more get found its key.
    pub open spec fn with_hit(self) -> MetricsView {
        MetricsView { get_key_hit: bumped(self.get_key_hit), ..self }
    }

    /// The registry after one more get found nothing under its key.
    pub open spec fn with_miss(self) -> MetricsView {
        MetricsView { get_key_miss: bumped(self.get_key_miss), ..self }
    }

    /// The registry after one more connection was made.
    pub open spec fn with_connection(self) -> MetricsView {
        MetricsView {
            connect: bumped(self.connect),
            connect_curr: bumped(self.connect_curr),
            ..self
        }
    }

    /// The registry after one more work item was skipped as unsupported.
    pub open spec fn with_unsupported(self) -> MetricsView {
        MetricsView { request_unsupported: bumped(self.request_unsupported), ..self }
    }

    /// The registry after the latency of one more success was recorded.
    pub open spec fn with_latency(self, nanos: u64) -> MetricsView {
        MetricsView { response_latency: self.response_latency.push(nanos), ..self }
    }
}

impl Metrics {
    /// A registry that has seen nothing.
    pub fn new() -> (metrics: Metrics)
        ensures
            metrics@ == MetricsView::fresh(),
    {
        Metrics {
            get: OpCounters::new(),
            put: OpCounters::new(),
            delete: OpCounters::new(),
            get_key_hit: 0,
            get_key_miss: 0,
            request_unsupported: 0,
            connect: 0,
            connect_curr: 0,
            response_latency: Vec::new(),
        }
    }

    /// Counts one more attempt of an operation of `kind`.
    pub fn record_attempt(&mut self, kind: OpKind)
        ensures
            final(self)@ == old(self)@.with_attempt(kind),
    {
        match kind {
            OpKind::Get => self.get.record_attempt(),
            OpKind::Put => self.put.record_attempt(),
            OpKind::Delete => self.delete.record_attempt(),
        }
    }

    /// Counts one more operation of `kind` that ended in `outcome`.
    pub fn record_outcome(&mut self, kind: OpKind, outcome: OutcomeKind)
        ensures
            final(self)@ == old(self)@.with_outcome(kind, outcome),
    {
        match kind {
            OpKind::Get => self.get.record_outcome(outcome),
            OpKind::Put => self.put.record_outcome(outcome),
            OpKind::Delete => self.delete.record_outcome(outcome),
        }
    }

    /// Counts one more get that found its key.
    pub fn record_hit(&mut self)
        ensures
            final(self)@ == old(self)@.with_hit(),
    {
        bump(&mut self.get_key_hit);
    }

    /// Counts one more get that found nothing under its key.
    pub fn record_miss(&mut self)
        ensures
            final(self)@ == old(self)@.with_miss(),
    {
        bump(&mut self.get_key_miss);
    }

    /// Counts one more connection, in the total and in the gauge of open
    /// connections.
    pub fn record_connection(&mut self)
        ensures
            final(self)@ == old(self)@.with_connection(),
    {
        bump(&mut self.connect);
        bump(&mut self.connect_curr);
    }

    /// Counts one more work item that was skipped as unsupported.
    pub fn record_unsupported(&mut self)
        ensures
            final(self)@ == old(self)@.with_unsupported(),
    {
        bump(&mut self.request_unsupported);
    }

    /// Records the latency of one more operation that succeeded.
    pub fn record_latency(&mut self, nanos: u64)
        ensures
            final(self)@ == old(self)@.with_latency(nanos),
    {
        self.response_latency.push(nanos);
    }
}

} // verus!
