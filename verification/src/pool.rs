//! A pool of workers that report into one registry, as a model: what holds
//! of the registry however the workers' steps interleave.

use vstd::prelude::*;
use crate::laws::{adds_up, flying, has_room, law_step_settles};
use crate::metrics::MetricsView;
use crate::worker::{step, EventView, Pending, WorkerState, WorkerView};
use crate::workload::OpKind;

verus! {

/// Workers that share one registry.
pub struct Pool {
    pub workers: Seq<WorkerView>,
    pub metrics: MetricsView,
}

/// One turn of a pool: the worker at the index `worker` takes `event`.
pub struct Turn {
    pub worker: int,
    pub event: EventView,
}

/// The number of workers that have an operation of `kind` in flight.
pub open spec fn pool_flying(workers: Seq<WorkerView>, kind: OpKind) -> int
    decreases workers.len(),
{
    if workers.len() == 0 {
        0
    } else {
        pool_flying(workers.drop_last(), kind) + flying(workers.last(), kind)
    }
}

/// Whether none of the workers has done anything yet.
pub open spec fn all_new(workers: Seq<WorkerView>) -> bool {
    forall|i: int|
        0 <= i < workers.len() ==> (#[trigger] workers[i]).state == WorkerState::Running(
            Pending::Flag,
        )
}

/// The pool after one turn. A turn of a worker that the pool does not have
/// changes nothing.
pub open spec fn pool_step(pool: Pool, turn: Turn) -> Pool {
    if 0 <= turn.worker < pool.workers.len() {
        let taken = step(pool.workers[turn.worker], pool.metrics, turn.event);
        Pool { workers: pool.workers.update(turn.worker, taken.worker), metrics: taken.metrics }
    } else {
        pool
    }
}

/// The pool after `turns`, one after the other.
pub open spec fn pool_run(pool: Pool, turns: Seq<Turn>) -> Pool
    decreases turns.len(),
{
    if turns.len() == 0 {
        pool
    } else {
        pool_step(pool_run(pool, turns.drop_last()), turns.last())
    }
}

/// Whether the registry accounts for exactly what the workers of the pool
/// have done: of each operation type, the operations attempted are those
/// that have ended and those in flight; and every get that succeeded is a
/// hit or a miss.
pub open spec fn pool_balanced(pool: Pool) -> bool {
    &&& pool.metrics.get.in_flight() == pool_flying(pool.workers, OpKind::Get)
    &&& pool.metrics.put.in_flight() == pool_flying(pool.workers, OpKind::Put)
    &&& pool.metrics.delete.in_flight() == pool_flying(pool.workers, OpKind::Delete)
    &&& pool.metrics.get.ok == pool.metrics.get_key_hit + pool.metrics.get_key_miss
}

/// No fewer than no worker and no more than all of them have an operation
/// in flight.
pub proof fn lemma_flying_bounds(workers: Seq<WorkerView>, kind: OpKind)
    ensures
        0 <= pool_flying(workers, kind) <= workers.len(),
    decreases workers.len(),
{
    if workers.len() > 0 {
        lemma_flying_bounds(workers.drop_last(), kind);
    }
}

/// Workers that have done nothing have nothing in flight.
pub proof fn lemma_new_workers_fly_nothing(workers: Seq<WorkerView>, kind: OpKind)
    requires
        all_new(workers),
    ensures
        pool_flying(workers, kind) == 0,
    decreases workers.len(),
{
    if workers.len() > 0 {
        lemma_new_workers_fly_nothing(workers.drop_last(), kind);
    }
}

/// Replacing one worker changes the number of operations in flight by the
/// difference between the two workers.
pub proof fn lemma_flying_update(
    workers: Seq<WorkerView>,
    at: int,
    worker: WorkerView,
    kind: OpKind,
)
    requires
        0 <= at < workers.len(),
    ensures
        pool_flying(workers.update(at, worker), kind) == pool_flying(workers, kind) - flying(
            workers[at],
            kind,
        ) + flying(worker, kind),
    decreases workers.len(),
{
    let updated = workers.update(at, worker);
    if at == workers.len() - 1 {
        assert(updated.drop_last() =~= workers.drop_last());
    } else {
        lemma_flying_update(workers.drop_last(), at, worker, kind);
        assert(updated.drop_last() =~= workers.drop_last().update(at, worker));
    }
}

/// A turn keeps a pool balanced, as long as no counter of attempts is full.
pub proof fn law_turn_keeps_balance(pool: Pool, turn: Turn)
    requires
        has_room(pool.metrics),
        pool_balanced(pool),
    ensures
        pool_balanced(pool_step(pool, turn)),
{
    lemma_flying_bounds(pool.workers, OpKind::Get);
    lemma_flying_bounds(pool.workers, OpKind::Put);
    lemma_flying_bounds(pool.workers, OpKind::Delete);
    assert(adds_up(pool.metrics));
    if 0 <= turn.worker < pool.workers.len() {
        let worker = pool.workers[turn.worker];
        let taken = step(worker, pool.metrics, turn.event);
        law_step_settles(worker, pool.metrics, turn.event, OpKind::Get);
        law_step_settles(worker, pool.metrics, turn.event, OpKind::Put);
        law_step_settles(worker, pool.metrics, turn.event, OpKind::Delete);
        lemma_flying_update(pool.workers, turn.worker, taken.worker, OpKind::Get);
        lemma_flying_update(pool.workers, turn.worker, taken.worker, OpKind::Put);
        lemma_flying_update(pool.workers, turn.worker, taken.worker, OpKind::Delete);
    }
}

/// However the steps of the workers of a pool interleave, the registry that
/// they share stays balanced: starting from new workers and a registry that
/// has seen nothing, after any turns, of which there are no more than a
/// counter can count, the operations of each type that were attempted are
/// exactly those that have ended in one of the five outcomes and those that
/// workers have in flight. So the outcome counters of a type never add up
/// to more than its attempts, and they add up to exactly its attempts
/// whenever nothing of the type is in flight.
pub proof fn law_pool_is_balanced(workers: Seq<WorkerView>, turns: Seq<Turn>, kind: OpKind)
    requires
        all_new(workers),
        turns.len() <= u64::MAX,
    ensures
        pool_balanced(pool_run(Pool { workers, metrics: MetricsView::fresh() }, turns)),
        pool_run(Pool { workers, metrics: MetricsView::fresh() }, turns).workers.len()
            == workers.len(),
        pool_run(Pool { workers, metrics: MetricsView::fresh() }, turns).metrics.counters(
            kind,
        ).attempted <= turns.len(),
        pool_run(Pool { workers, metrics: MetricsView::fresh() }, turns).metrics.counters(
            kind,
        ).settled() <= pool_run(
            Pool { workers, metrics: MetricsView::fresh() },
            turns,
        ).metrics.counters(kind).attempted,
    decreases turns.len(),
{
    let start = Pool { workers, metrics: MetricsView::fresh() };
    if turns.len() == 0 {
        lemma_new_workers_fly_nothing(workers, OpKind::Get);
        lemma_new_workers_fly_nothing(workers, OpKind::Put);
        lemma_new_workers_fly_nothing(workers, OpKind::Delete);
    } else {
        let earlier = turns.drop_last();
        law_pool_is_balanced(workers, earlier, OpKind::Get);
        law_pool_is_balanced(workers, earlier, OpKind::Put);
        law_pool_is_balanced(workers, earlier, OpKind::Delete);
        law_turn_keeps_balance(pool_run(start, earlier), turns.last());
    }
    lemma_flying_bounds(pool_run(start, turns).workers, kind);
}

} // verus!
