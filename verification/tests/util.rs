use promising_future::{all_with, any, future_promise, Future, Spawner};

struct Inline;

impl Spawner for Inline {
    fn spawn<F: FnOnce() + Send + 'static>(&self, f: F) {
        f()
    }
}

#[test]
fn any_first_value_in_order() {
    let v = vec![Future::never(), Future::with_value(2), Future::with_value(3)];
    assert_eq!(any(v), Some(2));
}

#[test]
fn any_without_values() {
    let v: Vec<Future<i32>> = vec![Future::never(), Future::never()];
    assert_eq!(any(v), None);
    assert_eq!(any(Vec::<Future<i32>>::new()), None);
}

#[test]
fn any_gives_up_the_rest() {
    let (f, p) = future_promise::<i32>();
    let v = vec![Future::with_value(1), f];
    assert_eq!(any(v), Some(1));
    assert!(p.canceled());
}

#[test]
fn any_waits_for_completed_promises() {
    let (f1, p1) = future_promise::<i32>();
    let (f2, p2) = future_promise::<i32>();
    p1.abandon();
    p2.set(6);
    assert_eq!(any(vec![f1, Future::never(), f2]), Some(6));
}

#[test]
fn all_in_resolution_order() {
    let (f, p) = future_promise();
    p.set(9);
    let v = vec![Future::with_value(1), f, Future::never(), Future::with_value(2)];
    assert_eq!(all_with(v, Inline).value(), Some(vec![1, 9, 2]));
}

#[test]
fn any_first_resolved_value_before_pending_ones() {
    let (f, p) = future_promise::<i32>();
    let v = vec![Future::never(), Future::with_value(5), f];
    assert_eq!(any(v), Some(5));
    assert!(p.canceled());
}

#[test]
fn any_value_after_pending_future() {
    let (f, p) = future_promise::<i32>();
    assert_eq!(any(vec![f, Future::with_value(5)]), Some(5));
    // The pending future was handed to the stream as a callback, which does not cancel.
    assert!(!p.canceled());
    p.abandon();
}
