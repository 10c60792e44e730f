//! The outcome classifier: what each operation's dispatch ended in, counted
//! and reported.
//!
//! Each function takes the result of one dispatch, moves exactly one of the
//! operation's five outcome counters, and returns what the worker reports.

use vstd::prelude::*;
use crate::dispatch::{Dispatched, GetResponse};
use crate::error::{OutcomeKind, ResponseError};
use crate::metrics::{Metrics, MetricsView};
use crate::workload::OpKind;

verus! {

/// The registry after a put ended in `result`.
pub open spec fn put_recorded(metrics: MetricsView, result: Dispatched<()>) -> MetricsView {
    metrics.with_outcome(OpKind::Put, result.outcome())
}

/// The registry after a get ended in `result`: the outcome is counted, and a
/// success is counted once more, as a hit or as a miss.
pub open spec fn get_recorded(
    metrics: MetricsView,
    result: Dispatched<GetResponse>,
) -> MetricsView {
    let counted = metrics.with_outcome(OpKind::Get, result.outcome());
    match result {
        Dispatched::Returned(Ok(GetResponse::Found)) => counted.with_hit(),
        Dispatched::Returned(Ok(GetResponse::NotFound)) => counted.with_miss(),
        _ => counted,
    }
}

/// The registry after a delete ended in `result`.
pub open spec fn delete_recorded(metrics: MetricsView, result: Dispatched<()>) -> MetricsView {
    metrics.with_outcome(OpKind::Delete, result.outcome())
}

/// Records what putting a key-value pair in a store ended in.
pub fn put(metrics: &mut Metrics, result: Dispatched<()>) -> (reported: Result<(), ResponseError>)
    ensures
        final(metrics)@ == put_recorded(old(metrics)@, result),
        reported == result.outcome().result(),
{
    let outcome = result.classify();
    metrics.record_outcome(OpKind::Put, outcome);
    outcome.into_result()
}

/// Records what retrieving a key-value pair from the store ended in.
pub fn store_get(
    metrics: &mut Metrics,
    result: Dispatched<GetResponse>,
) -> (reported: Result<(), ResponseError>)
    ensures
        final(metrics)@ == get_recorded(old(metrics)@, result),
        reported == result.outcome().result(),
{
    let outcome = result.classify();
    metrics.record_outcome(OpKind::Get, outcome);
    match result {
        Dispatched::Returned(Ok(GetResponse::Found)) => metrics.record_hit(),
        Dispatched::Returned(Ok(GetResponse::NotFound)) => metrics.record_miss(),
        _ => {},
    }
    outcome.into_result()
}

/// Records what removing a key from the store ended in.
pub fn store_delete(
    metrics: &mut Metrics,
    result: Dispatched<()>,
) -> (reported: Result<(), ResponseError>)
    ensures
        final(metrics)@ == delete_recorded(old(metrics)@, result),
        reported == result.outcome().result(),
{
    let outcome = result.classify();
    metrics.record_outcome(OpKind::Delete, outcome);
    outcome.into_result()
}

} // verus!
