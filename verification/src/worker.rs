//! The worker: one sequential loop of a pool, as a state machine.
//!
//! A worker reads the running flag, takes a work item, dispatches it and
//! records what came back, again and again. Reading the flag, taking from
//! the queue and awaiting the backend are the caller's work; [`task`] says
//! what to do next. The caller starts by reading the flag, hands every
//! answer to [`task`] as an [`Event`] and performs the [`Action`] it gets
//! back, until that is [`Action::Exit`].

use vstd::prelude::*;
use crate::dispatch::{Dispatched, GetResponse};
use crate::error::{OutcomeKind, WorkerError};
use crate::metrics::{Metrics, MetricsView};
use crate::store::{delete_recorded, get_recorded, put, put_recorded, store_delete, store_get};
use crate::workload::{
    ClientWorkItemKind, OpKind, Operation, OperationView, StoreClientRequest, WorkItemView,
};

verus! {

/// What a running worker is waiting for.
#[derive(Debug, Clone, Copy, PartialEq, Eq, Structural)]
pub enum Pending {
    /// A reading of the running flag.
    Flag,
    /// The next item of the queue.
    Item,
    /// The end of the operation that is in flight.
    Reply(OpKind),
}

/// How a worker ended.
#[derive(Debug, Clone, Copy, PartialEq, Eq, Structural)]
pub enum Exit {
    /// The running flag was read as false.
    Shutdown,
    /// The queue was closed.
    ChannelClosed,
}

/// The two states of a worker.
#[derive(Debug, Clone, Copy, PartialEq, Eq, Structural)]
pub enum WorkerState {
    Running(Pending),
    Stopped(Exit),
}

/// One worker of the pool.
#[derive(Debug, PartialEq, Eq)]
pub struct Worker {
    /// The identity of the store that the worker's connection works on.
    pub store_name: String,
    /// The deadline of each request, in nanoseconds.
    pub request_timeout: u64,
    pub state: WorkerState,
}

/// The result of one dispatch, by the kind of operation that was dispatched.
#[derive(Debug, PartialEq, Eq)]
pub enum Completion {
    Get(Dispatched<GetResponse>),
    Put(Dispatched<()>),
    Delete(Dispatched<()>),
}

/// What the caller hands to a worker.
#[derive(Debug, PartialEq, Eq)]
pub enum Event {
    /// The running flag was read, with this value.
    Flag(bool),
    /// The queue gave an item, or `None`: it is closed for good.
    Item(Option<ClientWorkItemKind>),
    /// The dispatch ended in `completion`, `elapsed` nanoseconds after it
    /// was started.
    Reply { completion: Completion, elapsed: u128 },
}

/// What a worker asks the caller to do.
#[derive(Debug, PartialEq, Eq)]
pub enum Action {
    /// Read the running flag.
    Poll,
    /// Take the next item from the queue.
    Receive,
    /// Send `operation` to the store `store_name` and race it against a
    /// deadline of `request_timeout` nanoseconds.
    Dispatch { store_name: String, operation: Operation, request_timeout: u64 },
    /// End the worker with this result.
    Exit(Result<(), WorkerError>),
    /// Nothing new: the event answered nothing that the worker had asked
    /// for. What was asked before is still awaited.
    Wait,
}

/// A worker, as a mathematical value.
pub struct WorkerView {
    pub store_name: Seq<char>,
    pub request_timeout: u64,
    pub state: WorkerState,
}

/// An event, as a mathematical value.
pub enum EventView {
    Flag(bool),
    Item(Option<WorkItemView>),
    Reply { completion: Completion, elapsed: u128 },
}

/// An action, as a mathematical value.
pub enum ActionView {
    Poll,
    Receive,
    Dispatch { store_name: Seq<char>, operation: OperationView, request_timeout: u64 },
    Exit(Result<(), WorkerError>),
    Wait,
}

impl View for Worker {
    type V = WorkerView;

    open spec fn view(&self) -> WorkerView {
        WorkerView {
            store_name: self.store_name@,
            request_timeout: self.request_timeout,
            state: self.state,
        }
    }
}

impl View for Event {
    type V = EventView;

    open spec fn view(&self) -> EventView {
        match self {
            Event::Flag(running) => EventView::Flag(*running),
            Event::Item(Some(item)) => EventView::Item(Some(item@)),
            Event::Item(None) => EventView::Item(None),
            Event::Reply { completion, elapsed } => EventView::Reply {
                completion: *completion,
                elapsed: *elapsed,
            },
        }
    }
}

impl View for Action {
    type V = ActionView;

    open spec fn view(&self) -> ActionView {
        match self {
            Action::Poll => ActionView::Poll,
            Action::Receive => ActionView::Receive,
            Action::Dispatch { store_name, operation, request_timeout } => ActionView::Dispatch {
                store_name: store_name@,
                operation: operation@,
                request_timeout: *request_timeout,
            },
            Action::Exit(result) => ActionView::Exit(*result),
            Action::Wait => ActionView::Wait,
        }
    }
}

impl Exit {
    /// The result that a worker which ended this way returns.
    pub open spec fn result(self) -> Result<(), WorkerError> {
        match self {
            Exit::Shutdown => Ok(()),
            Exit::ChannelClosed => Err(WorkerError::ChannelClosed),
        }
    }

    /// The result that a worker which ended this way returns.
    pub fn into_result(self) -> (result: Result<(), WorkerError>)
        ensures
            result == self.result(),
    {
        match self {
            Exit::Shutdown => Ok(()),
            Exit::ChannelClosed => Err(WorkerError::ChannelClosed),
        }
    }
}

impl Completion {
    /// The kind of operation that the result belongs to.
    pub open spec fn kind(self) -> OpKind {
        match self {
            Completion::Get(_) => OpKind::Get,
            Completion::Put(_) => OpKind::Put,
            Completion::Delete(_) => OpKind::Delete,
        }
    }

    /// The one outcome kind that the dispatch counts as.
    pub open spec fn outcome(self) -> OutcomeKind {
        match self {
            Completion::Get(result) => result.outcome(),
            Completion::Put(result) => result.outcome(),
            Completion::Delete(result) => result.outcome(),
        }
    }

    /// The registry after the dispatch was classified and counted.
    pub open spec fn recorded(self, metrics: MetricsView) -> MetricsView {
        match self {
            Completion::Get(result) => get_recorded(metrics, result),
            Completion::Put(result) => put_recorded(metrics, result),
            Completion::Delete(result) => delete_recorded(metrics, result),
        }
    }
}

/// The latency that is recorded for a duration of `elapsed` nanoseconds: the
/// duration itself as long as it fits in 64 bits, its low 64 bits beyond.
pub open spec fn latency_nanos(elapsed: u128) -> u64 {
    (elapsed % 0x1_0000_0000_0000_0000) as u64
}

impl WorkerView {
    /// A worker that has not done anything yet: it is about to read the
    /// flag.
    pub open spec fn fresh(store_name: Seq<char>, request_timeout: u64) -> WorkerView {
        WorkerView { store_name, request_timeout, state: WorkerState::Running(Pending::Flag) }
    }

    /// The worker, now in `state`.
    pub open spec fn moved_to(self, state: WorkerState) -> WorkerView {
        WorkerView { state, ..self }
    }

    /// Whether an operation of `kind` is in flight for the worker.
    pub open spec fn awaits_reply(self, kind: OpKind) -> bool {
        self.state == WorkerState::Running(Pending::Reply(kind))
    }
}

/// A worker, a registry and an action: what one step of a worker gives.
pub struct Step {
    pub worker: WorkerView,
    pub metrics: MetricsView,
    pub action: ActionView,
}

/// The step of a worker that learns nothing from the event.
pub open spec fn unmoved(worker: WorkerView, metrics: MetricsView) -> Step {
    Step { worker, metrics, action: ActionView::Wait }
}

/// The step of a worker that has read the flag. While the flag is up the
/// worker asks for the next item. Once it is down the worker stops.
pub open spec fn on_flag(worker: WorkerView, metrics: MetricsView, running: bool) -> Step {
    if running {
        Step {
            worker: worker.moved_to(WorkerState::Running(Pending::Item)),
            metrics,
            action: ActionView::Receive,
        }
    } else {
        Step {
            worker: worker.moved_to(WorkerState::Stopped(Exit::Shutdown)),
            metrics,
            action: ActionView::Exit(Ok(())),
        }
    }
}

/// The step of a worker that has taken a request from the queue. A request
/// of a kind that is dispatched is counted as attempted and sent to the
/// worker's store under the worker's deadline. Any other is counted as
/// unsupported, and the worker goes on to read the flag.
pub open spec fn on_request(
    worker: WorkerView,
    metrics: MetricsView,
    request: Option<OperationView>,
) -> Step {
    match request {
        Some(operation) => Step {
            worker: worker.moved_to(WorkerState::Running(Pending::Reply(operation.kind()))),
            metrics: metrics.with_attempt(operation.kind()),
            action: ActionView::Dispatch {
                store_name: worker.store_name,
                operation,
                request_timeout: worker.request_timeout,
            },
        },
        None => Step {
            worker: worker.moved_to(WorkerState::Running(Pending::Flag)),
            metrics: metrics.with_unsupported(),
            action: ActionView::Poll,
        },
    }
}

/// The step of a worker that has heard from the queue. A closed queue ends
/// the worker. A reconnect signal changes nothing. A request is handled as
/// [`on_request`] says.
pub open spec fn on_item(
    worker: WorkerView,
    metrics: MetricsView,
    item: Option<WorkItemView>,
) -> Step {
    match item {
        None => Step {
            worker: worker.moved_to(WorkerState::Stopped(Exit::ChannelClosed)),
            metrics,
            action: ActionView::Exit(Err(WorkerError::ChannelClosed)),
        },
        Some(WorkItemView::Reconnect) => Step {
            worker: worker.moved_to(WorkerState::Running(Pending::Flag)),
            metrics,
            action: ActionView::Poll,
        },
        Some(WorkItemView::Request(request)) => on_request(worker, metrics, request),
    }
}

/// The step of a worker whose operation in flight has ended. The outcome is
/// counted, the latency of a success is recorded, and the worker goes on to
/// read the flag.
pub open spec fn on_reply(
    worker: WorkerView,
    metrics: MetricsView,
    completion: Completion,
    elapsed: u128,
) -> Step {
    let counted = completion.recorded(metrics);
    Step {
        worker: worker.moved_to(WorkerState::Running(Pending::Flag)),
        metrics: if completion.outcome() == OutcomeKind::Success {
            counted.with_latency(latency_nanos(elapsed))
        } else {
            counted
        },
        action: ActionView::Poll,
    }
}

/// One step of a worker: the worker and the registry after `event`, and what
/// the worker asks for next. An event that answers what the worker waits
/// for moves it on. Any other event changes nothing. A worker that has
/// stopped stays as it is and repeats its result.
pub open spec fn step(worker: WorkerView, metrics: MetricsView, event: EventView) -> Step {
    match worker.state {
        WorkerState::Stopped(exit) => Step {
            worker,
            metrics,
            action: ActionView::Exit(exit.result()),
        },
        WorkerState::Running(Pending::Flag) => match event {
            EventView::Flag(running) => on_flag(worker, metrics, running),
            _ => unmoved(worker, metrics),
        },
        WorkerState::Running(Pending::Item) => match event {
            EventView::Item(item) => on_item(worker, metrics, item),
            _ => unmoved(worker, metrics),
        },
        WorkerState::Running(Pending::Reply(kind)) => match event {
            EventView::Reply { completion, elapsed } => if completion.kind() == kind {
                on_reply(worker, metrics, completion, elapsed)
            } else {
                unmoved(worker, metrics)
            },
            _ => unmoved(worker, metrics),
        },
    }
}

impl Worker {
    /// A worker on the store `store_name` whose requests have
    /// `request_timeout` nanoseconds each. It is about to read the flag.
    pub fn new(store_name: String, request_timeout: u64) -> (worker: Worker)
        ensures
            worker@ == WorkerView::fresh(store_name@, request_timeout),
    {
        Worker { store_name, request_timeout, state: WorkerState::Running(Pending::Flag) }
    }
}

/// Narrows a duration in nanoseconds to the 64 bits of a latency.
fn narrow(elapsed: u128) -> (nanos: u64)
    ensures
        nanos == latency_nanos(elapsed),
{
    assert((elapsed as u64) == (elapsed % 0x1_0000_0000_0000_0000) as u64) by (bit_vector);
    elapsed as u64
}

/// Takes up a request from the queue.
fn begin(
    worker: &mut Worker,
    metrics: &mut Metrics,
    request: StoreClientRequest,
) -> (action: Action)
    ensures
        final(worker)@ == on_request(old(worker)@, old(metrics)@, request@).worker,
        final(metrics)@ == on_request(old(worker)@, old(metrics)@, request@).metrics,
        action@ == on_request(old(worker)@, old(metrics)@, request@).action,
{
    match request.operation() {
        Some(operation) => {
            let kind = operation.kind();
            metrics.record_attempt(kind);
            worker.state = WorkerState::Running(Pending::Reply(kind));
            Action::Dispatch {
                store_name: worker.store_name.clone(),
                operation,
                request_timeout: worker.request_timeout,
            }
        },
        None => {
            metrics.record_unsupported();
            worker.state = WorkerState::Running(Pending::Flag);
            Action::Poll
        },
    }
}

/// Records the end of the operation in flight.
fn finish(
    worker: &mut Worker,
    metrics: &mut Metrics,
    completion: Completion,
    elapsed: u128,
) -> (action: Action)
    ensures
        final(worker)@ == on_reply(old(worker)@, old(metrics)@, completion, elapsed).worker,
        final(metrics)@ == on_reply(old(worker)@, old(metrics)@, completion, elapsed).metrics,
        action@ == on_reply(old(worker)@, old(metrics)@, completion, elapsed).action,
{
    let reported = match completion {
        Completion::Get(result) => store_get(metrics, result),
        Completion::Put(result) => put(metrics, result),
        Completion::Delete(result) => store_delete(metrics, result),
    };
    match reported {
        Ok(_) => {
            metrics.record_latency(narrow(elapsed));
        },
        Err(_) => {},
    }
    worker.state = WorkerState::Running(Pending::Flag);
    Action::Poll
}

/// One step of a worker's loop: takes the answer to what the worker asked
/// for last, counts what there is to count, and says what to do next.
///
/// The flag is read between two items and never while an operation is in
/// flight, so an operation that was dispatched is always recorded before
/// the worker stops. An event that the worker did not ask for, such as the
/// late answer of a call that had timed out, is dropped: nothing that was
/// recorded changes.
pub fn task(worker: &mut Worker, metrics: &mut Metrics, event: Event) -> (action: Action)
    ensures
        final(worker)@ == step(old(worker)@, old(metrics)@, event@).worker,
        final(metrics)@ == step(old(worker)@, old(metrics)@, event@).metrics,
        action@ == step(old(worker)@, old(metrics)@, event@).action,
{
    match worker.state {
        WorkerState::Stopped(exit) => Action::Exit(exit.into_result()),
        WorkerState::Running(Pending::Flag) => match event {
            Event::Flag(running) => {
                if running {
                    worker.state = WorkerState::Running(Pending::Item);
                    Action::Receive
                } else {
                    worker.state = WorkerState::Stopped(Exit::Shutdown);
                    Action::Exit(Ok(()))
                }
            },
            _ => Action::Wait,
        },
        WorkerState::Running(Pending::Item) => match event {
            Event::Item(None) => {
                worker.state = WorkerState::Stopped(Exit::ChannelClosed);
                Action::Exit(Err(WorkerError::ChannelClosed))
            },
            Event::Item(Some(ClientWorkItemKind::Reconnect)) => {
                worker.state = WorkerState::Running(Pending::Flag);
                Action::Poll
            },
            Event::Item(Some(ClientWorkItemKind::Request { request })) => begin(
                worker,
                metrics,
                request,
            ),
            _ => Action::Wait,
        },
        WorkerState::Running(Pending::Reply(kind)) => match event {
            Event::Reply { completion, elapsed } => {
                let answered = match completion {
                    Completion::Get(_) => OpKind::Get,
                    Completion::Put(_) => OpKind::Put,
                    Completion::Delete(_) => OpKind::Delete,
                };
                if answered == kind {
                    finish(worker, metrics, completion, elapsed)
                } else {
                    Action::Wait
                }
            },
            _ => Action::Wait,
        },
    }
}

} // verus!
