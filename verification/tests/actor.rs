use dbactor::channel::Request;
use dbactor::channel::RequestChannel;
use dbactor::channel::CHANNEL_CAPACITY;
use dbactor::client::reply_outcome;
use dbactor::client::Client;
use dbactor::error::DbError;
use dbactor::executor::ChoiceRow;
use dbactor::worker::check_config;
use dbactor::worker::process_batch;
use dbactor::worker::ReplyAction;
use dbactor::worker::Worker;
use dbactor::worker::WorkerState;
use dbactor::worker::POOL_MAX;
use dbactor::worker::POOL_MIN;

fn request(client: &mut Client, query: &str) -> Request {
    client.make_request(query.to_owned())
}

#[test]
fn client_slots_are_fresh_and_increasing() {
    let mut client = Client::new();
    let a = request(&mut client, "SELECT sku, description FROM products");
    let b = request(&mut client, "SELECT sku, description FROM products");
    let c = request(&mut client, "SELECT 1");
    assert_eq!(a.slot, 0);
    assert_eq!(b.slot, 1);
    assert_eq!(c.slot, 2);
    assert_ne!(a.slot, b.slot);
    assert_ne!(b.slot, c.slot);
}

#[test]
fn fifo_within_a_producer() {
    let mut client = Client::new();
    let mut ch = RequestChannel::new();
    let a = request(&mut client, "first");
    let b = request(&mut client, "second");
    let slot_a = a.slot;
    let slot_b = b.slot;
    assert!(ch.try_enqueue(a));
    assert!(ch.try_enqueue(b));
    let first = ch.dequeue().expect("first request");
    let second = ch.dequeue().expect("second request");
    assert_eq!(first.slot, slot_a);
    assert_eq!(first.query, "first");
    assert_eq!(second.slot, slot_b);
    assert_eq!(second.query, "second");
    assert!(ch.dequeue().is_none());
}

#[test]
fn backpressure_at_capacity_four() {
    assert_eq!(CHANNEL_CAPACITY, 4);
    let mut client = Client::new();
    let mut ch = RequestChannel::new();
    for i in 0..5u64 {
        let r = request(&mut client, &format!("query {}", i));
        let ok = ch.try_enqueue(r);
        // The fifth simultaneous enqueue finds the queue full and must wait.
        assert_eq!(ok, i < 4);
    }
    assert_eq!(ch.len(), 4);
    // The worker drains one slot; the waiting producer now gets through.
    let drained = ch.dequeue().expect("queued request");
    assert_eq!(drained.query, "query 0");
    let retry = request(&mut client, "query 4 again");
    assert!(ch.try_enqueue(retry));
    assert_eq!(ch.len(), 4);
}

#[test]
fn three_concurrent_calls_each_get_their_own_rows() {
    let mut client = Client::new();
    let requests = vec![
        request(&mut client, "SELECT sku, description FROM products"),
        request(&mut client, "SELECT id, name FROM people"),
        request(&mut client, "SELECT code, label FROM colours"),
    ];
    let outcomes: Vec<Result<Vec<ChoiceRow>, DbError>> = vec![
        Ok(vec![("A1".to_owned(), "Widget".to_owned())]),
        Ok(vec![("7".to_owned(), "Ada".to_owned())]),
        Ok(vec![("F00".to_owned(), "red".to_owned())]),
    ];
    let replies = process_batch(&requests, outcomes);
    assert_eq!(replies.len(), 3);
    assert_eq!(
        replies[0],
        ReplyAction::Fulfill {
            slot: requests[0].slot,
            rows: vec![("A1".to_owned(), "Widget".to_owned())],
        }
    );
    assert_eq!(
        replies[1],
        ReplyAction::Fulfill {
            slot: requests[1].slot,
            rows: vec![("7".to_owned(), "Ada".to_owned())],
        }
    );
    assert_eq!(
        replies[2],
        ReplyAction::Fulfill {
            slot: requests[2].slot,
            rows: vec![("F00".to_owned(), "red".to_owned())],
        }
    );
}

#[test]
fn failure_of_one_request_leaves_the_next_untouched() {
    let mut worker = Worker::new();
    worker.start();
    assert_eq!(worker.state, WorkerState::Running);
    let mut client = Client::new();
    assert!(worker.queue.try_enqueue(request(&mut client, "SELECT broken")));
    assert!(worker
        .queue
        .try_enqueue(request(&mut client, "SELECT sku, description FROM products")));
    let a = worker.take_next().expect("first queued request");
    assert_eq!(a.query, "SELECT broken");
    let reply_a = worker.finish(&a, Err(DbError::Query("syntax error".to_owned())));
    // The failed request's slot is dropped, never fulfilled, and the
    // worker keeps running.
    assert_eq!(reply_a, ReplyAction::DropSlot { slot: a.slot });
    assert_eq!(worker.state, WorkerState::Running);
    let b = worker.take_next().expect("second queued request");
    let rows = vec![("A1".to_owned(), "Widget".to_owned())];
    let reply_b = worker.finish(&b, Ok(rows.clone()));
    assert_eq!(reply_b, ReplyAction::Fulfill { slot: b.slot, rows });
    assert_ne!(a.slot, b.slot);
    assert_eq!(worker.state, WorkerState::Running);
    assert!(worker.take_next().is_none());
}

#[test]
fn serialized_worker_completes_both_of_two_calls() {
    // Even with the pool held to a single connection, the worker answers
    // requests one at a time, so two concurrent calls both complete.
    assert_eq!(POOL_MIN, 1);
    let mut client = Client::new();
    let requests = vec![
        request(&mut client, "SELECT sku, description FROM products"),
        request(&mut client, "SELECT sku, description FROM products"),
    ];
    let outcomes: Vec<Result<Vec<ChoiceRow>, DbError>> = vec![
        Ok(vec![("A1".to_owned(), "Widget".to_owned())]),
        Ok(vec![("A1".to_owned(), "Widget".to_owned())]),
    ];
    let replies = process_batch(&requests, outcomes);
    assert!(matches!(replies[0], ReplyAction::Fulfill { .. }));
    assert!(matches!(replies[1], ReplyAction::Fulfill { .. }));
    assert_ne!(requests[0].slot, requests[1].slot);
}

#[test]
fn pool_policy_is_one_to_eight() {
    assert_eq!(POOL_MIN, 1);
    assert_eq!(POOL_MAX, 8);
    assert!(POOL_MIN <= POOL_MAX);
}

#[test]
fn reply_slot_dropped_means_cancellation() {
    let r = reply_outcome(None);
    assert_eq!(r, Err(DbError::ReplyCancelled));
}

#[test]
fn delivered_reply_is_the_calls_success() {
    let rows = vec![("A1".to_owned(), "Widget".to_owned())];
    let r = reply_outcome(Some(rows.clone()));
    assert_eq!(r, Ok(rows));
}

#[test]
fn missing_connection_string_is_fatal_configuration_error() {
    assert_eq!(check_config(None), Err(DbError::Configuration));
    assert_eq!(
        check_config(Some("mysql://localhost/db".to_owned())),
        Ok("mysql://localhost/db".to_owned())
    );
}

#[test]
fn worker_lifecycle_runs_then_drains_then_stops() {
    let mut worker = Worker::new();
    assert_eq!(worker.state, WorkerState::Starting);
    worker.start();
    assert_eq!(worker.state, WorkerState::Running);
    worker.close();
    assert_eq!(worker.state, WorkerState::Draining);
    worker.stop();
    assert_eq!(worker.state, WorkerState::Stopped);
}
