// The queue of outcomes behind a future stream, and its single waiter.
use promising_future::futurestream::{StreamGoal, StreamQueue, WaiterSlot};
use promising_future::sync::Awaitable;
use promising_future::futurestream::{CountOutstanding, Enlist, Enqueue, TakeResolved, TakeValue};
use promising_future::sync::Transition;
use promising_future::Future;

#[test]
fn stream_conservation() {
    let mut q: StreamQueue<i32> = StreamQueue::new();
    assert_eq!(q.outstanding(), 0);
    q.enlist();
    q.enlist();
    assert_eq!(q.outstanding(), 2);
    q.resolve(Some(1));
    assert_eq!(q.pending, 1);
    assert_eq!(q.outstanding(), 2);
    assert_eq!(q.next_resolved(), Some(Some(1)));
    assert_eq!(q.outstanding(), 1);
}

#[test]
fn stream_fifo() {
    let mut q: StreamQueue<i32> = StreamQueue::new();
    q.enlist();
    q.enlist();
    q.resolve(Some(10));
    q.resolve(None);
    assert_eq!(q.next_resolved(), Some(Some(10)));
    assert_eq!(q.next_resolved(), Some(None));
    assert_eq!(q.next_resolved(), None);
}

#[test]
fn stream_value_skips_empty() {
    let mut q: StreamQueue<i32> = StreamQueue::new();
    q.resolve(None);
    q.resolve(None);
    q.resolve(Some(3));
    q.resolve(None);
    q.resolve(Some(4));
    assert_eq!(q.next_value(), Some(3));
    assert_eq!(q.ready.len(), 2);
    assert_eq!(q.next_value(), Some(4));
    q.resolve(None);
    assert_eq!(q.next_value(), None);
    assert_eq!(q.ready.len(), 0);
}

#[test]
fn stream_wait_ends_with_outcome() {
    let mut q: StreamQueue<i32> = StreamQueue::new();
    assert!(!q.must_wait(&StreamGoal::Resolved));
    assert_eq!(q.next_resolved(), None);
    q.enlist();
    assert!(q.must_wait(&StreamGoal::Resolved));
    assert!(q.must_wait(&StreamGoal::Value));
    q.enlist();
    q.resolve(None);
    assert!(!q.must_wait(&StreamGoal::Resolved));
    assert!(q.must_wait(&StreamGoal::Value));
    q.resolve(Some(2));
    assert!(!q.must_wait(&StreamGoal::Value));
    assert_eq!(q.next_value(), Some(2));
}

#[test]
fn single_waiter() {
    let mut w = WaiterSlot { free: true };
    assert!(!w.must_wait(&()));
    assert!(w.acquire());
    assert!(w.must_wait(&()));
    assert!(!w.acquire());
}

#[test]
fn queue_events_give_resolved_futures() {
    let mut q: StreamQueue<i32> = StreamQueue::new();
    q.step(Enlist);
    q.step(Enlist);
    assert_eq!(q.step(CountOutstanding), 2);
    q.step(Enqueue(None));
    q.step(Enqueue(Some(8)));
    match q.step(TakeResolved) {
        Some(Future::Const(None)) => (),
        _ => panic!("expected the unfulfilled outcome first"),
    }
    assert_eq!(q.step(TakeValue), Some(8));
    assert!(q.step(TakeResolved).is_none());
    assert_eq!(q.step(CountOutstanding), 0);
}
