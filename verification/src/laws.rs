//! What holds of workers and registries whatever the events are.

use vstd::prelude::*;
use crate::config::ConfigView;
use crate::dispatch::{race, Dispatched, GetResponse};
use crate::error::{BackendError, OutcomeKind, WorkerError};
use crate::launcher::{on_connected, LauncherView};
use crate::metrics::{bumped, MetricsView, OpCounters};
use crate::store::get_recorded;
use crate::worker::{
    step, ActionView, Completion, EventView, Exit, Pending, WorkerState, WorkerView,
};
use crate::workload::{OpKind, WorkItemView};

verus! {

/// The number of operations of `kind` that `worker` has in flight: one or
/// none.
pub open spec fn flying(worker: WorkerView, kind: OpKind) -> int {
    if worker.awaits_reply(kind) {
        1
    } else {
        0
    }
}

/// Whether every operation type can count one more attempt.
pub open spec fn has_room(metrics: MetricsView) -> bool {
    &&& metrics.get.attempted < u64::MAX
    &&& metrics.put.attempted < u64::MAX
    &&& metrics.delete.attempted < u64::MAX
}

/// Whether the registry adds up: for no operation type more operations have
/// ended than were attempted, and every get that succeeded is a hit or a
/// miss.
pub open spec fn adds_up(metrics: MetricsView) -> bool {
    &&& metrics.get.settled() <= metrics.get.attempted
    &&& metrics.put.settled() <= metrics.put.attempted
    &&& metrics.delete.settled() <= metrics.delete.attempted
    &&& metrics.get.ok == metrics.get_key_hit + metrics.get_key_miss
}

/// Whether the registry accounts for exactly what `worker` has done: of
/// each operation type, the operations attempted are those that have ended
/// and the one in flight, if there is one; and the registry adds up.
pub open spec fn balanced(worker: WorkerView, metrics: MetricsView) -> bool {
    &&& metrics.get.in_flight() == flying(worker, OpKind::Get)
    &&& metrics.put.in_flight() == flying(worker, OpKind::Put)
    &&& metrics.delete.in_flight() == flying(worker, OpKind::Delete)
    &&& metrics.get.ok == metrics.get_key_hit + metrics.get_key_miss
}

/// A worker and a registry: what a run of events gives.
pub struct Run {
    pub worker: WorkerView,
    pub metrics: MetricsView,
}

/// The worker and the registry after the worker took `events` one after the
/// other.
pub open spec fn run(worker: WorkerView, metrics: MetricsView, events: Seq<EventView>) -> Run
    decreases events.len(),
{
    if events.len() == 0 {
        Run { worker, metrics }
    } else {
        let before = run(worker, metrics, events.drop_last());
        let last = step(before.worker, before.metrics, events.last());
        Run { worker: last.worker, metrics: last.metrics }
    }
}

/// Every step of a worker changes the number of operations that the
/// registry holds as unsettled by exactly what the worker's own operation in
/// flight changes by, for each operation type; hits and misses keep adding
/// up to the gets that succeeded. This holds of a registry that is shared
/// with other workers too, as long as no counter of attempts is full.
pub proof fn law_step_settles(
    worker: WorkerView,
    metrics: MetricsView,
    event: EventView,
    kind: OpKind,
)
    requires
        has_room(metrics),
        adds_up(metrics),
    ensures
        step(worker, metrics, event).metrics.counters(kind).in_flight() - metrics.counters(
            kind,
        ).in_flight() == flying(step(worker, metrics, event).worker, kind) - flying(worker, kind),
        step(worker, metrics, event).metrics.get.ok == step(
            worker,
            metrics,
            event,
        ).metrics.get_key_hit + step(worker, metrics, event).metrics.get_key_miss,
{
}

/// A step of a worker keeps the registry balanced, as long as no counter of
/// attempts is full.
pub proof fn law_step_keeps_balance(worker: WorkerView, metrics: MetricsView, event: EventView)
    requires
        has_room(metrics),
        balanced(worker, metrics),
    ensures
        balanced(step(worker, metrics, event).worker, step(worker, metrics, event).metrics),
{
    law_step_settles(worker, metrics, event, OpKind::Get);
    law_step_settles(worker, metrics, event, OpKind::Put);
    law_step_settles(worker, metrics, event, OpKind::Delete);
}

/// After any events, of which there are no more than a counter can count,
/// the registry of a new worker is balanced: for each operation type,
/// `attempted == ok + exception + timeout + ratelimited + backend_timeout`
/// once no operation of the type is in flight, and for gets
/// `ok == hit + miss`. No more operations were attempted than there were
/// events.
pub proof fn law_run_is_balanced(
    store_name: Seq<char>,
    request_timeout: u64,
    events: Seq<EventView>,
    kind: OpKind,
)
    requires
        events.len() <= u64::MAX,
    ensures
        balanced(
            run(
                WorkerView::fresh(store_name, request_timeout),
                MetricsView::fresh(),
                events,
            ).worker,
            run(
                WorkerView::fresh(store_name, request_timeout),
                MetricsView::fresh(),
                events,
            ).metrics,
        ),
        run(
            WorkerView::fresh(store_name, request_timeout),
            MetricsView::fresh(),
            events,
        ).metrics.counters(kind).attempted <= events.len(),
        !run(
            WorkerView::fresh(store_name, request_timeout),
            MetricsView::fresh(),
            events,
        ).worker.awaits_reply(kind) ==> run(
            WorkerView::fresh(store_name, request_timeout),
            MetricsView::fresh(),
            events,
        ).metrics.counters(kind).attempted == run(
            WorkerView::fresh(store_name, request_timeout),
            MetricsView::fresh(),
            events,
        ).metrics.counters(kind).settled(),
    decreases events.len(),
{
    let worker = WorkerView::fresh(store_name, request_timeout);
    let metrics = MetricsView::fresh();
    if events.len() > 0 {
        let earlier = events.drop_last();
        law_run_is_balanced(store_name, request_timeout, earlier, OpKind::Get);
        law_run_is_balanced(store_name, request_timeout, earlier, OpKind::Put);
        law_run_is_balanced(store_name, request_timeout, earlier, OpKind::Delete);
        let before = run(worker, metrics, earlier);
        law_step_keeps_balance(before.worker, before.metrics, events.last());
    }
}

/// An event that answers nothing that the worker waits for changes neither
/// the worker nor the registry. So the answer of a call that had timed out,
/// coming in after the timeout was recorded, alters nothing that was
/// recorded.
pub proof fn law_unasked_reply_is_dropped(
    worker: WorkerView,
    metrics: MetricsView,
    completion: Completion,
    elapsed: u128,
)
    requires
        !worker.awaits_reply(completion.kind()),
    ensures
        step(worker, metrics, EventView::Reply { completion, elapsed }).worker == worker,
        step(worker, metrics, EventView::Reply { completion, elapsed }).metrics == metrics,
        worker.state is Running ==> step(
            worker,
            metrics,
            EventView::Reply { completion, elapsed },
        ).action == ActionView::Wait,
{
}

/// Once the end of an operation is recorded, whatever it was, the worker
/// awaits no reply: what comes in afterwards for that operation is dropped.
pub proof fn law_recorded_outcome_stays(
    worker: WorkerView,
    metrics: MetricsView,
    first: Completion,
    elapsed: u128,
    late: Completion,
    later: u128,
)
    requires
        worker.awaits_reply(first.kind()),
    ensures
        ({
            let recorded = step(worker, metrics, EventView::Reply { completion: first, elapsed });
            let after = step(
                recorded.worker,
                recorded.metrics,
                EventView::Reply { completion: late, elapsed: later },
            );
            after.worker == recorded.worker && after.metrics == recorded.metrics
        }),
{
}

/// The deadline decides the race: a backend that answers before the
/// deadline gets its answer through unchanged, and one that answers at the
/// deadline, after it or never is timed out, whatever it answers.
pub proof fn law_deadline_decides<R>(
    request_timeout: u64,
    latency: Option<u64>,
    reply: Result<R, BackendError>,
    other: Result<R, BackendError>,
)
    ensures
        latency is Some && latency->0 < request_timeout ==> race(request_timeout, latency, reply)
            == Dispatched::Returned(reply),
        latency is None || latency->0 >= request_timeout ==> race(
            request_timeout,
            latency,
            reply,
        ) == Dispatched::<R>::TimedOut,
        latency is None || latency->0 >= request_timeout ==> race(
            request_timeout,
            latency,
            reply,
        ) == race(request_timeout, latency, other),
        latency is None || latency->0 >= request_timeout ==> race(
            request_timeout,
            latency,
            reply,
        ).outcome() == OutcomeKind::Timeout,
{
}

/// A worker takes an item from the queue only after it has read the flag as
/// up, and it reads the flag again before the next item: after every item
/// and after every operation it asks for the flag.
pub proof fn law_flag_gates_the_queue(worker: WorkerView, metrics: MetricsView, event: EventView)
    ensures
        step(worker, metrics, event).action == ActionView::Receive ==> worker.state
            == WorkerState::Running(Pending::Flag) && event == EventView::Flag(true),
        step(worker, metrics, event).action is Dispatch ==> worker.state == WorkerState::Running(
            Pending::Item,
        ),
        step(worker, metrics, event).worker.state == WorkerState::Running(Pending::Item) ==> step(
            worker,
            metrics,
            event,
        ).action == ActionView::Receive || step(worker, metrics, event).action == ActionView::Wait,
{
}

/// A worker that reads the flag as down stops at once with success and has
/// counted nothing more. A worker that has stopped stays stopped: it asks
/// for no flag, no item and no dispatch, and the registry stays as it is.
pub proof fn law_shutdown_is_final(worker: WorkerView, metrics: MetricsView, event: EventView)
    ensures
        worker.state == WorkerState::Running(Pending::Flag) ==> {
            &&& step(worker, metrics, EventView::Flag(false)).worker == worker.moved_to(
                WorkerState::Stopped(Exit::Shutdown),
            )
            &&& step(worker, metrics, EventView::Flag(false)).metrics == metrics
            &&& step(worker, metrics, EventView::Flag(false)).action == ActionView::Exit(Ok(()))
        },
        worker.state is Stopped ==> {
            &&& step(worker, metrics, event).worker == worker
            &&& step(worker, metrics, event).metrics == metrics
            &&& step(worker, metrics, event).action == ActionView::Exit(
                worker.state->Stopped_0.result(),
            )
        },
{
}

/// A worker that waits for the queue and finds it closed ends with
/// `ChannelClosed` at once: it waits for nothing more and counts nothing.
pub proof fn law_closed_queue_ends_worker(worker: WorkerView, metrics: MetricsView)
    requires
        worker.state == WorkerState::Running(Pending::Item),
    ensures
        step(worker, metrics, EventView::Item(None)).worker == worker.moved_to(
            WorkerState::Stopped(Exit::ChannelClosed),
        ),
        step(worker, metrics, EventView::Item(None)).metrics == metrics,
        step(worker, metrics, EventView::Item(None)).action == ActionView::Exit(
            Err(WorkerError::ChannelClosed),
        ),
{
}

/// Whether `event` is an answer to what `worker` waits for. A worker that
/// has stopped waits for nothing: any event will do.
pub open spec fn answers(worker: WorkerView, event: EventView) -> bool {
    match worker.state {
        WorkerState::Running(Pending::Flag) => event is Flag,
        WorkerState::Running(Pending::Item) => event is Item,
        WorkerState::Running(Pending::Reply(kind)) => event is Reply && event->completion.kind()
            == kind,
        WorkerState::Stopped(_) => true,
    }
}

/// Once the flag is down, a worker stops within one operation: whatever it
/// waits for, three answers at most take it to the stop, none of which makes
/// it ask the queue for an item.
pub proof fn law_flag_down_stops_within_one_operation(
    worker: WorkerView,
    metrics: MetricsView,
    first: EventView,
    second: EventView,
    third: EventView,
)
    requires
        first != EventView::Flag(true),
        second != EventView::Flag(true),
        third != EventView::Flag(true),
        answers(worker, first),
        answers(step(worker, metrics, first).worker, second),
        answers(
            step(
                step(worker, metrics, first).worker,
                step(worker, metrics, first).metrics,
                second,
            ).worker,
            third,
        ),
    ensures
        ({
            let one = step(worker, metrics, first);
            let two = step(one.worker, one.metrics, second);
            let three = step(two.worker, two.metrics, third);
            &&& three.worker.state is Stopped
            &&& one.action != ActionView::Receive
            &&& two.action != ActionView::Receive
            &&& three.action != ActionView::Receive
        }),
{
}

/// Once the queue is closed, a worker stops within one operation: whatever
/// it waits for, three answers at most take it to the stop. Unless it has
/// read the flag as down on the way, it ends with `ChannelClosed`.
pub proof fn law_closed_queue_stops_within_one_operation(
    worker: WorkerView,
    metrics: MetricsView,
    first: EventView,
    second: EventView,
    third: EventView,
)
    requires
        worker.state is Running,
        !(first matches EventView::Item(Some(_))),
        !(second matches EventView::Item(Some(_))),
        !(third matches EventView::Item(Some(_))),
        answers(worker, first),
        answers(step(worker, metrics, first).worker, second),
        answers(
            step(
                step(worker, metrics, first).worker,
                step(worker, metrics, first).metrics,
                second,
            ).worker,
            third,
        ),
    ensures
        ({
            let one = step(worker, metrics, first);
            let two = step(one.worker, one.metrics, second);
            let three = step(two.worker, two.metrics, third);
            &&& three.worker.state is Stopped
            &&& first != EventView::Flag(false) && second != EventView::Flag(false) && third
                != EventView::Flag(false) ==> three.worker.state == WorkerState::Stopped(
                Exit::ChannelClosed,
            )
        }),
{
}

/// A get that finds nothing under its key counts as one more success and one
/// more miss, and as nothing else: hits stay as they are.
pub proof fn law_not_found_is_a_miss(metrics: MetricsView)
    ensures
        get_recorded(metrics, Dispatched::Returned(Ok(GetResponse::NotFound))) == (MetricsView {
            get: OpCounters { ok: bumped(metrics.get.ok), ..metrics.get },
            get_key_miss: bumped(metrics.get_key_miss),
            ..metrics
        }),
        metrics.get.ok < u64::MAX ==> get_recorded(
            metrics,
            Dispatched::Returned(Ok(GetResponse::NotFound)),
        ).get.ok == metrics.get.ok + 1,
        metrics.get_key_miss < u64::MAX ==> get_recorded(
            metrics,
            Dispatched::Returned(Ok(GetResponse::NotFound)),
        ).get_key_miss == metrics.get_key_miss + 1,
{
}

/// A work item of a kind that is not dispatched moves the counter of
/// unsupported items and no other, and nothing is dispatched for it.
pub proof fn law_unsupported_counts_alone(worker: WorkerView, metrics: MetricsView)
    requires
        worker.state == WorkerState::Running(Pending::Item),
    ensures
        step(worker, metrics, EventView::Item(Some(WorkItemView::Request(None)))).metrics
            == (MetricsView {
            request_unsupported: bumped(metrics.request_unsupported),
            ..metrics
        }),
        metrics.request_unsupported < u64::MAX ==> step(
            worker,
            metrics,
            EventView::Item(Some(WorkItemView::Request(None))),
        ).metrics.request_unsupported == metrics.request_unsupported + 1,
        step(worker, metrics, EventView::Item(Some(WorkItemView::Request(None)))).action
            == ActionView::Poll,
{
}

/// A launcher, a registry and workers: what a row of connections gives.
pub struct Launched {
    pub launcher: LauncherView,
    pub metrics: MetricsView,
    pub workers: Seq<WorkerView>,
}

/// The launcher and the registry after one connection was made for each of
/// the store identities `stores`, as long as the launcher asked for one, and
/// the workers of all these connections.
pub open spec fn connect_each(
    launcher: LauncherView,
    metrics: MetricsView,
    stores: Seq<Seq<char>>,
) -> Launched
    decreases stores.len(),
{
    if stores.len() == 0 {
        Launched { launcher, metrics, workers: Seq::empty() }
    } else {
        let before = connect_each(launcher, metrics, stores.drop_last());
        if before.launcher.pending() {
            let made = on_connected(before.launcher, before.metrics, stores.last());
            Launched {
                launcher: made.launcher,
                metrics: made.metrics,
                workers: before.workers + made.launch->Spawn_0,
            }
        } else {
            before
        }
    }
}

/// A launch in which every connection is made makes `poolsize` connections
/// and no more, and `concurrency` workers on each of them: after `n`
/// connections there are `n * concurrency` workers, `n` more connections
/// are counted, and the launcher asks for another one as long as `n` is
/// less than `poolsize`.
pub proof fn law_pool_has_its_size(config: ConfigView, metrics: MetricsView, stores: Seq<Seq<char>>)
    requires
        config.defect() is None,
        stores.len() <= config.storage->0.poolsize,
        metrics.connect + stores.len() <= u64::MAX,
        metrics.connect_curr + stores.len() <= u64::MAX,
    ensures
        connect_each(LauncherView::of(config), metrics, stores).launcher == (LauncherView {
            remaining: (config.storage->0.poolsize - stores.len()) as usize,
            ..LauncherView::of(config)
        }),
        connect_each(LauncherView::of(config), metrics, stores).launcher.pending() <==> stores.len()
            < config.storage->0.poolsize,
        connect_each(LauncherView::of(config), metrics, stores).workers.len() == stores.len()
            * config.storage->0.concurrency,
        connect_each(LauncherView::of(config), metrics, stores).metrics.connect == metrics.connect
            + stores.len(),
        connect_each(LauncherView::of(config), metrics, stores).metrics.connect_curr
            == metrics.connect_curr + stores.len(),
    decreases stores.len(),
{
    let each = config.storage->0.concurrency as int;
    if stores.len() > 0 {
        let made = stores.len() - 1;
        law_pool_has_its_size(config, metrics, stores.drop_last());
        let before = connect_each(LauncherView::of(config), metrics, stores.drop_last());
        assert(before.launcher.workers(stores.last()).len() == each);
        assert((made + 1) * each == made * each + each) by (nonlinear_arith);
    } else {
        assert(0 * each == 0) by (nonlinear_arith);
    }
}

} // verus!
