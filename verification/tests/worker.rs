use store_worker::dispatch::{Dispatched, GetResponse};
use store_worker::error::{BackendError, WorkerError};
use store_worker::metrics::{Metrics, OpCounters};
use store_worker::worker::{task, Action, Completion, Event, Exit, Pending, Worker, WorkerState};
use store_worker::workload::{
    ClientWorkItemKind, Delete, Get, OpKind, Operation, Put, StoreClientRequest,
};

fn worker() -> Worker {
    Worker::new("abc1234-bench".to_string(), 250_000_000)
}

fn request(request: StoreClientRequest) -> Event {
    Event::Item(Some(ClientWorkItemKind::Request { request }))
}

fn get(key: &str) -> Event {
    request(StoreClientRequest::Get(Get { key: key.to_string() }))
}

fn put(key: &str, value: &[u8]) -> Event {
    request(StoreClientRequest::Put(Put { key: key.to_string(), value: value.to_vec() }))
}

fn delete(key: &str) -> Event {
    request(StoreClientRequest::Delete(Delete { key: key.to_string() }))
}

fn get_reply(result: Dispatched<GetResponse>, elapsed: u128) -> Event {
    Event::Reply { completion: Completion::Get(result), elapsed }
}

fn counters(attempted: u64, ok: u64, exception: u64, timeout: u64, ratelimited: u64, backend_timeout: u64) -> OpCounters {
    OpCounters { attempted, ok, exception, timeout, ratelimited, backend_timeout }
}

fn settled(c: &OpCounters) -> u64 {
    c.ok + c.exception + c.timeout + c.ratelimited + c.backend_timeout
}

#[test]
fn new_worker_is_about_to_read_the_flag() {
    let w = worker();
    assert_eq!(w.store_name, "abc1234-bench");
    assert_eq!(w.request_timeout, 250_000_000);
    assert_eq!(w.state, WorkerState::Running(Pending::Flag));
}

#[test]
fn get_miss_round_trip() {
    let mut w = worker();
    let mut m = Metrics::new();
    assert_eq!(task(&mut w, &mut m, Event::Flag(true)), Action::Receive);
    assert_eq!(w.state, WorkerState::Running(Pending::Item));
    assert_eq!(m, Metrics::new());

    let action = task(&mut w, &mut m, get("k1"));
    assert_eq!(
        action,
        Action::Dispatch {
            store_name: "abc1234-bench".to_string(),
            operation: Operation::Get(Get { key: "k1".to_string() }),
            request_timeout: 250_000_000,
        }
    );
    assert_eq!(w.state, WorkerState::Running(Pending::Reply(OpKind::Get)));
    assert_eq!(m.get, counters(1, 0, 0, 0, 0, 0));
    assert!(m.response_latency.is_empty());

    let action = task(&mut w, &mut m, get_reply(Dispatched::Returned(Ok(GetResponse::NotFound)), 1_500));
    assert_eq!(action, Action::Poll);
    assert_eq!(w.state, WorkerState::Running(Pending::Flag));
    assert_eq!(m.get.ok, 1);
    assert_eq!(m.get_key_miss, 1);
    assert_eq!(m.get_key_hit, 0);
    let mut expected = Metrics::new();
    expected.get = counters(1, 1, 0, 0, 0, 0);
    expected.get_key_miss = 1;
    expected.response_latency = vec![1_500];
    assert_eq!(m, expected);
}

#[test]
fn get_hit_records_latency() {
    let mut w = worker();
    let mut m = Metrics::new();
    task(&mut w, &mut m, Event::Flag(true));
    task(&mut w, &mut m, get("k"));
    task(&mut w, &mut m, get_reply(Dispatched::Returned(Ok(GetResponse::Found)), 42));
    let mut expected = Metrics::new();
    expected.get = counters(1, 1, 0, 0, 0, 0);
    expected.get_key_hit = 1;
    expected.response_latency = vec![42];
    assert_eq!(m, expected);
}

#[test]
fn put_is_dispatched_with_key_and_value() {
    let mut w = worker();
    let mut m = Metrics::new();
    task(&mut w, &mut m, Event::Flag(true));
    let action = task(&mut w, &mut m, put("k2", &[1, 2, 3]));
    assert_eq!(
        action,
        Action::Dispatch {
            store_name: "abc1234-bench".to_string(),
            operation: Operation::Put(Put { key: "k2".to_string(), value: vec![1, 2, 3] }),
            request_timeout: 250_000_000,
        }
    );
    assert_eq!(m.put, counters(1, 0, 0, 0, 0, 0));
    let action = task(
        &mut w,
        &mut m,
        Event::Reply { completion: Completion::Put(Dispatched::Returned(Ok(()))), elapsed: 7 },
    );
    assert_eq!(action, Action::Poll);
    let mut expected = Metrics::new();
    expected.put = counters(1, 1, 0, 0, 0, 0);
    expected.response_latency = vec![7];
    assert_eq!(m, expected);
}

#[test]
fn delete_is_dispatched_with_its_key() {
    let mut w = worker();
    let mut m = Metrics::new();
    task(&mut w, &mut m, Event::Flag(true));
    let action = task(&mut w, &mut m, delete("gone"));
    assert_eq!(
        action,
        Action::Dispatch {
            store_name: "abc1234-bench".to_string(),
            operation: Operation::Delete(Delete { key: "gone".to_string() }),
            request_timeout: 250_000_000,
        }
    );
    assert_eq!(w.state, WorkerState::Running(Pending::Reply(OpKind::Delete)));
    let action = task(
        &mut w,
        &mut m,
        Event::Reply {
            completion: Completion::Delete(Dispatched::Returned(Err(BackendError::Timeout))),
            elapsed: 9,
        },
    );
    assert_eq!(action, Action::Poll);
    let mut expected = Metrics::new();
    expected.delete = counters(1, 0, 0, 0, 0, 1);
    assert_eq!(m, expected);
}

#[test]
fn failures_record_no_latency() {
    let failures = vec![
        Dispatched::Returned(Err(BackendError::InternalServer)),
        Dispatched::Returned(Err(BackendError::LimitExceeded)),
        Dispatched::Returned(Err(BackendError::Timeout)),
        Dispatched::TimedOut,
    ];
    let mut w = worker();
    let mut m = Metrics::new();
    for failure in failures {
        task(&mut w, &mut m, Event::Flag(true));
        task(&mut w, &mut m, get("k"));
        assert_eq!(task(&mut w, &mut m, get_reply(failure, 1_000)), Action::Poll);
    }
    let mut expected = Metrics::new();
    expected.get = counters(4, 0, 1, 1, 1, 1);
    assert_eq!(m, expected);
}

#[test]
fn unsupported_item_counts_only_unsupported() {
    let mut w = worker();
    let mut m = Metrics::new();
    task(&mut w, &mut m, Event::Flag(true));
    let action = task(&mut w, &mut m, request(StoreClientRequest::Other));
    assert_eq!(action, Action::Poll);
    assert_eq!(w.state, WorkerState::Running(Pending::Flag));
    let mut expected = Metrics::new();
    expected.request_unsupported = 1;
    assert_eq!(m, expected);
}

#[test]
fn reconnect_signal_is_a_no_op() {
    let mut w = worker();
    let mut m = Metrics::new();
    task(&mut w, &mut m, Event::Flag(true));
    let action = task(&mut w, &mut m, Event::Item(Some(ClientWorkItemKind::Reconnect)));
    assert_eq!(action, Action::Poll);
    assert_eq!(w, worker());
    assert_eq!(m, Metrics::new());
}

#[test]
fn closed_queue_ends_the_worker() {
    let mut w = worker();
    let mut m = Metrics::new();
    task(&mut w, &mut m, Event::Flag(true));
    let action = task(&mut w, &mut m, Event::Item(None));
    assert_eq!(action, Action::Exit(Err(WorkerError::ChannelClosed)));
    assert_eq!(w.state, WorkerState::Stopped(Exit::ChannelClosed));
    assert_eq!(m, Metrics::new());
    assert_eq!(task(&mut w, &mut m, Event::Flag(true)), Action::Exit(Err(WorkerError::ChannelClosed)));
    assert_eq!(task(&mut w, &mut m, get("k")), Action::Exit(Err(WorkerError::ChannelClosed)));
    assert_eq!(w.state, WorkerState::Stopped(Exit::ChannelClosed));
    assert_eq!(m, Metrics::new());
}

#[test]
fn closed_queue_ends_every_worker_bound_to_it() {
    let mut m = Metrics::new();
    let mut workers = vec![worker(), worker(), worker()];
    for w in workers.iter_mut() {
        assert_eq!(task(w, &mut m, Event::Flag(true)), Action::Receive);
    }
    for w in workers.iter_mut() {
        assert_eq!(task(w, &mut m, Event::Item(None)), Action::Exit(Err(WorkerError::ChannelClosed)));
    }
    for w in workers.iter() {
        assert_eq!(w.state, WorkerState::Stopped(Exit::ChannelClosed));
    }
}

#[test]
fn flag_down_stops_the_worker() {
    let mut w = worker();
    let mut m = Metrics::new();
    assert_eq!(task(&mut w, &mut m, Event::Flag(false)), Action::Exit(Ok(())));
    assert_eq!(w.state, WorkerState::Stopped(Exit::Shutdown));
    assert_eq!(task(&mut w, &mut m, Event::Flag(true)), Action::Exit(Ok(())));
    assert_eq!(task(&mut w, &mut m, get("k")), Action::Exit(Ok(())));
    assert_eq!(task(&mut w, &mut m, Event::Item(None)), Action::Exit(Ok(())));
    assert_eq!(
        task(&mut w, &mut m, get_reply(Dispatched::Returned(Ok(GetResponse::Found)), 3)),
        Action::Exit(Ok(()))
    );
    assert_eq!(w.state, WorkerState::Stopped(Exit::Shutdown));
    assert_eq!(m, Metrics::new());
}

#[test]
fn operation_in_flight_is_finished_before_the_stop() {
    let mut w = worker();
    let mut m = Metrics::new();
    task(&mut w, &mut m, Event::Flag(true));
    task(&mut w, &mut m, get("k"));
    assert_eq!(task(&mut w, &mut m, Event::Flag(false)), Action::Wait);
    assert_eq!(w.state, WorkerState::Running(Pending::Reply(OpKind::Get)));
    assert_eq!(
        task(&mut w, &mut m, get_reply(Dispatched::Returned(Ok(GetResponse::Found)), 11)),
        Action::Poll
    );
    assert_eq!(task(&mut w, &mut m, Event::Flag(false)), Action::Exit(Ok(())));
    let mut expected = Metrics::new();
    expected.get = counters(1, 1, 0, 0, 0, 0);
    expected.get_key_hit = 1;
    expected.response_latency = vec![11];
    assert_eq!(m, expected);
}

#[test]
fn late_answer_after_timeout_changes_nothing() {
    let mut w = worker();
    let mut m = Metrics::new();
    task(&mut w, &mut m, Event::Flag(true));
    task(&mut w, &mut m, get("slow"));
    assert_eq!(task(&mut w, &mut m, get_reply(Dispatched::TimedOut, 250_000_000)), Action::Poll);
    let mut expected = Metrics::new();
    expected.get = counters(1, 0, 0, 1, 0, 0);
    assert_eq!(m, expected);

    let late = get_reply(Dispatched::Returned(Ok(GetResponse::Found)), 900_000_000);
    assert_eq!(task(&mut w, &mut m, late), Action::Wait);
    assert_eq!(w.state, WorkerState::Running(Pending::Flag));
    assert_eq!(m, expected);

    task(&mut w, &mut m, Event::Flag(true));
    let late = get_reply(Dispatched::Returned(Ok(GetResponse::Found)), 900_000_000);
    assert_eq!(task(&mut w, &mut m, late), Action::Wait);
    assert_eq!(w.state, WorkerState::Running(Pending::Item));
    assert_eq!(m, expected);
}

#[test]
fn answer_of_another_kind_is_not_taken() {
    let mut w = worker();
    let mut m = Metrics::new();
    task(&mut w, &mut m, Event::Flag(true));
    task(&mut w, &mut m, get("k"));
    let other = Event::Reply { completion: Completion::Put(Dispatched::Returned(Ok(()))), elapsed: 1 };
    assert_eq!(task(&mut w, &mut m, other), Action::Wait);
    let other = Event::Reply { completion: Completion::Delete(Dispatched::TimedOut), elapsed: 1 };
    assert_eq!(task(&mut w, &mut m, other), Action::Wait);
    assert_eq!(w.state, WorkerState::Running(Pending::Reply(OpKind::Get)));
    let mut expected = Metrics::new();
    expected.get = counters(1, 0, 0, 0, 0, 0);
    assert_eq!(m, expected);
}

#[test]
fn events_out_of_turn_are_dropped() {
    let mut w = worker();
    let mut m = Metrics::new();
    assert_eq!(task(&mut w, &mut m, get("k")), Action::Wait);
    assert_eq!(task(&mut w, &mut m, Event::Item(None)), Action::Wait);
    assert_eq!(w, worker());
    task(&mut w, &mut m, Event::Flag(true));
    assert_eq!(task(&mut w, &mut m, Event::Flag(true)), Action::Wait);
    assert_eq!(task(&mut w, &mut m, Event::Flag(false)), Action::Wait);
    assert_eq!(w.state, WorkerState::Running(Pending::Item));
    task(&mut w, &mut m, get("k"));
    assert_eq!(task(&mut w, &mut m, get("again")), Action::Wait);
    assert_eq!(task(&mut w, &mut m, Event::Item(None)), Action::Wait);
    assert_eq!(w.state, WorkerState::Running(Pending::Reply(OpKind::Get)));
    let mut expected = Metrics::new();
    expected.get = counters(1, 0, 0, 0, 0, 0);
    assert_eq!(m, expected);
}

#[test]
fn latency_keeps_the_low_64_bits() {
    let durations: Vec<(u128, u64)> = vec![
        (0, 0),
        (1, 1),
        (u64::MAX as u128, u64::MAX),
        (u64::MAX as u128 + 1, 0),
        (u64::MAX as u128 + 6, 5),
        (u128::MAX, u64::MAX),
    ];
    let mut w = worker();
    let mut m = Metrics::new();
    let mut expected = Vec::new();
    for (elapsed, nanos) in durations {
        task(&mut w, &mut m, Event::Flag(true));
        task(&mut w, &mut m, get("k"));
        task(&mut w, &mut m, get_reply(Dispatched::Returned(Ok(GetResponse::Found)), elapsed));
        expected.push(nanos);
    }
    assert_eq!(m.response_latency, expected);
}

#[test]
fn gets_add_up_after_every_item() {
    let mut w = worker();
    let mut m = Metrics::new();
    let n: u64 = 60;
    for i in 0..n {
        assert_eq!(task(&mut w, &mut m, Event::Flag(true)), Action::Receive);
        task(&mut w, &mut m, get("k"));
        assert_eq!(m.get.attempted, settled(&m.get) + 1);
        let result = match i % 6 {
            0 => Dispatched::Returned(Ok(GetResponse::Found)),
            1 => Dispatched::Returned(Ok(GetResponse::NotFound)),
            2 => Dispatched::Returned(Err(BackendError::BadRequest)),
            3 => Dispatched::Returned(Err(BackendError::LimitExceeded)),
            4 => Dispatched::Returned(Err(BackendError::Timeout)),
            _ => Dispatched::TimedOut,
        };
        assert_eq!(task(&mut w, &mut m, get_reply(result, i as u128)), Action::Poll);
        assert_eq!(m.get.attempted, i + 1);
        assert_eq!(m.get.attempted, settled(&m.get));
        assert_eq!(m.get.ok, m.get_key_hit + m.get_key_miss);
    }
    assert_eq!(m.get, counters(60, 20, 10, 10, 10, 10));
    assert_eq!(m.get_key_hit, 10);
    assert_eq!(m.get_key_miss, 10);
    assert_eq!(m.response_latency.len(), 20);
    assert_eq!(m.put, counters(0, 0, 0, 0, 0, 0));
    assert_eq!(m.delete, counters(0, 0, 0, 0, 0, 0));
    assert_eq!(m.request_unsupported, 0);
}

#[test]
fn workers_sharing_a_registry_never_settle_more_than_attempted() {
    let mut m = Metrics::new();
    let mut a = worker();
    let mut b = worker();
    let mut c = worker();
    task(&mut a, &mut m, Event::Flag(true));
    task(&mut b, &mut m, Event::Flag(true));
    task(&mut c, &mut m, Event::Flag(true));
    task(&mut a, &mut m, get("a"));
    task(&mut b, &mut m, get("b"));
    assert_eq!(m.get.attempted, 2);
    assert_eq!(settled(&m.get), 0);
    task(&mut c, &mut m, put("c", &[0]));
    task(&mut b, &mut m, get_reply(Dispatched::TimedOut, 5));
    assert_eq!(m.get, counters(2, 0, 0, 1, 0, 0));
    task(&mut b, &mut m, Event::Flag(true));
    task(&mut b, &mut m, delete("b"));
    task(&mut a, &mut m, get_reply(Dispatched::Returned(Ok(GetResponse::NotFound)), 6));
    task(
        &mut c,
        &mut m,
        Event::Reply { completion: Completion::Put(Dispatched::Returned(Ok(()))), elapsed: 8 },
    );
    assert!(settled(&m.get) <= m.get.attempted);
    assert!(settled(&m.put) <= m.put.attempted);
    assert!(settled(&m.delete) <= m.delete.attempted);
    let mut expected = Metrics::new();
    expected.get = counters(2, 1, 0, 1, 0, 0);
    expected.put = counters(1, 1, 0, 0, 0, 0);
    expected.delete = counters(1, 0, 0, 0, 0, 0);
    expected.get_key_miss = 1;
    expected.response_latency = vec![6, 8];
    assert_eq!(m, expected);
}

#[test]
fn request_kinds() {
    assert_eq!(
        StoreClientRequest::Get(Get { key: "k".to_string() }).operation(),
        Some(Operation::Get(Get { key: "k".to_string() }))
    );
    assert_eq!(
        StoreClientRequest::Put(Put { key: "k".to_string(), value: vec![9] }).operation(),
        Some(Operation::Put(Put { key: "k".to_string(), value: vec![9] }))
    );
    assert_eq!(
        StoreClientRequest::Delete(Delete { key: "k".to_string() }).operation(),
        Some(Operation::Delete(Delete { key: "k".to_string() }))
    );
    assert_eq!(StoreClientRequest::Other.operation(), None);
    assert_eq!(Operation::Get(Get { key: "k".to_string() }).kind(), OpKind::Get);
    assert_eq!(Operation::Put(Put { key: "k".to_string(), value: vec![] }).kind(), OpKind::Put);
    assert_eq!(Operation::Delete(Delete { key: "k".to_string() }).kind(), OpKind::Delete);
    assert_eq!(Exit::Shutdown.into_result(), Ok(()));
    assert_eq!(Exit::ChannelClosed.into_result(), Err(WorkerError::ChannelClosed));
}
