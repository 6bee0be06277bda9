// The transitions of the cell shared by a future and its promise.
use promising_future::inner::{Attach, Callback, Delivery, Inner, Taken};
use std::sync::mpsc::channel;
use promising_future::inner::{AskCanceled, Complete, Look, Release};
use promising_future::sync::Transition;

fn recording_callback(tx: std::sync::mpsc::Sender<Option<i32>>) -> Callback<i32> {
    Callback::new(move |v: Option<i32>| {
        let _ = tx.send(v);
    })
}

#[test]
fn fresh_cell_is_empty_and_not_canceled() {
    let s: Inner<i32> = Inner::new();
    assert!(matches!(s, Inner::Empty));
    assert!(!s.canceled());
}

#[test]
fn pending_take_is_idle() {
    let (s, t) = Inner::<i32>::new().take();
    assert!(matches!(s, Inner::Empty));
    assert!(matches!(t, Taken::Pending));
}

#[test]
fn take_reads_completion() {
    let (s, d) = Inner::new().complete(Some(5));
    assert!(matches!(d, Delivery::Wake));
    assert!(matches!(s, Inner::Val(Some(5))));
    let (s, t) = s.take();
    assert!(matches!(s, Inner::Gone));
    assert!(matches!(t, Taken::Ready(Some(5))));
}

#[test]
fn take_reads_abandonment() {
    let (s, d) = Inner::<i32>::new().complete(None);
    assert!(matches!(d, Delivery::Wake));
    let (_, t) = s.take();
    assert!(matches!(t, Taken::Ready(None)));
}

#[test]
fn write_once() {
    let (s, _) = Inner::new().complete(Some(1));
    let (s, d) = s.complete(Some(2));
    assert!(matches!(d, Delivery::Discard));
    assert!(matches!(s, Inner::Val(Some(1))));
    let (s, d) = s.complete(None);
    assert!(matches!(d, Delivery::Discard));
    assert!(matches!(s, Inner::Val(Some(1))));
}

#[test]
fn release_cancels() {
    let s = Inner::<i32>::new().release();
    assert!(s.canceled());
    let (s, d) = s.complete(Some(3));
    assert!(matches!(d, Delivery::Discard));
    assert!(matches!(s, Inner::Gone));
}

#[test]
fn release_after_completion_keeps_outcome() {
    let (s, _) = Inner::new().complete(Some(4));
    let s = s.release();
    assert!(!s.canceled());
    assert!(matches!(s, Inner::Val(Some(4))));
}

#[test]
fn callback_attached_first_runs_on_completion() {
    let (tx, rx) = channel();
    let (s, a) = Inner::new().attach(recording_callback(tx));
    assert!(matches!(a, Attach::Deferred));
    assert!(matches!(s, Inner::Callback(_)));
    assert!(rx.try_recv().is_err());
    let (s, d) = s.complete(Some(9));
    assert!(matches!(s, Inner::Gone));
    match d {
        Delivery::Run(cb, v) => cb.run(v),
        _ => panic!("expected the callback back"),
    }
    assert_eq!(rx.try_recv(), Ok(Some(9)));
}

#[test]
fn callback_attached_after_completion_runs_at_once() {
    let (tx, rx) = channel();
    let (s, _) = Inner::new().complete(None);
    let (s, a) = s.attach(recording_callback(tx));
    assert!(matches!(s, Inner::Gone));
    match a {
        Attach::RunNow(cb, v) => cb.run(v),
        _ => panic!("expected to run the callback now"),
    }
    assert_eq!(rx.try_recv(), Ok(None));
}

#[test]
fn callback_refused_by_gone_cell() {
    let (tx, rx) = channel();
    let (s, a) = Inner::<i32>::new().release().attach(recording_callback(tx));
    assert!(matches!(a, Attach::Refused));
    assert!(matches!(s, Inner::Gone));
    assert!(rx.try_recv().is_err());
}

#[test]
fn promise_keeps_future_view() {
    let (s, d) = Inner::new().complete(Some(1));
    assert!(matches!(s, Inner::Val(_)));
    assert!(!matches!(d, Delivery::Run(_, _)));
    let (s, d) = s.complete(Some(2));
    assert!(matches!(s, Inner::Val(_)));
    assert!(!matches!(d, Delivery::Run(_, _)));
}

#[test]
fn live_future_sees_first_outcome() {
    let mut s = Inner::new();
    for v in [Some(1), Some(2), None] {
        s = s.complete(v).0;
        assert!(matches!(s, Inner::Val(Some(1))));
    }
    let (_, t) = s.take();
    assert!(matches!(t, Taken::Ready(Some(1))));
}

#[test]
fn transitions_through_events() {
    let mut s: Inner<i32> = Inner::new();
    assert!(matches!(s.step(Look), Taken::Pending));
    assert!(matches!(s.step(Complete(Some(3))), Delivery::Wake));
    assert!(!s.step(AskCanceled));
    assert!(matches!(s.step(Look), Taken::Ready(Some(3))));
    assert!(matches!(s, Inner::Gone));
    let mut t: Inner<i32> = Inner::new();
    t.step(Release);
    assert!(t.step(AskCanceled));
}
