use promising_future::{all_with, future_promise, Future, Pollresult, Spawner};

/// Runs each spawned function at once, on the calling thread.
struct Inline;

impl Spawner for Inline {
    fn spawn<F: FnOnce() + Send + 'static>(&self, f: F) {
        f()
    }
}

#[test]
fn simple() {
    let (fut, prom) = future_promise();

    prom.set(1);
    assert_eq!(fut.value(), Some(1));
}

#[test]
fn poll() {
    let (fut, prom) = future_promise();

    let fut = match fut.poll() {
        Pollresult::Unresolved(s) => s,
        Pollresult::Resolved(_) => panic!("expected unresolved"),
    };

    prom.set(1);

    match fut.poll() {
        Pollresult::Unresolved(_) => panic!("expected resolved"),
        Pollresult::Resolved(v) => assert_eq!(v, Some(1)),
    }
}

#[test]
fn chain_push() {
    let (fut, prom) = future_promise();

    prom.set(1);

    let fut = fut.chain_with(|x| x.map(|x| x + 1), &Inline);
    let fut = fut.chain_with(|x| x.map(|x| x + 2), &Inline);
    let fut = fut.chain_with(|x| x.map(|x| x + 3), &Inline);

    assert_eq!(fut.value(), Some(7));
}

#[test]
fn testall() {
    let v = vec![Future::with_value(1), Future::with_value(2), Future::with_value(3)];

    assert_eq!(all_with(v, Inline).value(), Some(vec![1, 2, 3]));
}

#[test]
fn drop() {
    let (fut, prom) = future_promise();

    prom.abandon();

    assert_eq!(fut.value(), None::<i32>);
}

#[test]
fn never_chain() {
    let fut: Future<i32> = Future::never();

    let fut = fut.chain_with(|x| x.map(|x| x + 1), &Inline);
    let fut = fut.chain_with(|x| x.map(|x| x + 2), &Inline);
    let fut = fut.chain_with(|x| x.map(|x| x + 3), &Inline);

    assert_eq!(fut.value(), None);
}

#[test]
fn never_all() {
    let v = vec![Future::with_value(1), Future::never(), Future::with_value(2), Future::never(), Future::with_value(3)];

    assert_eq!(all_with(v, Inline).value(), Some(vec![1, 2, 3]));
}

#[test]
fn then_simple() {
    let (fut, prom) = future_promise();

    let fut: Future<i32> = fut.then(|v| v);
    prom.set(1);
    assert_eq!(fut.value(), Some(1));
}

#[test]
fn then_drop() {
    let (fut, prom): (Future<i32>, _) = future_promise();

    let fut: Future<i32> = fut.then(|v| v);
    prom.abandon();
    assert_eq!(fut.value(), None);
}

#[test]
fn then_chain() {
    let (fut, prom): (Future<i32>, _) = future_promise();

    let fut = fut.then(|v| v + 1);
    let fut = fut.then(|v| v + 2);
    let fut = fut.then(|v| v + 3);

    prom.set(1);

    assert_eq!(fut.value(), Some(1 + 1 + 2 + 3));
}

#[test]
fn then_opt_chain() {
    let (fut, prom): (Future<i32>, _) = future_promise();

    let fut = fut.then_opt(|v| v.map(|v| v + 1));
    let fut = fut.then_opt(|_| None::<u32>);
    let fut = fut.then_opt(|v| v.map(|v| v + 3));

    prom.set(1);

    assert_eq!(fut.value(), None);
}

#[test]
fn canceled() {
    let (fut, prom): (Future<i32>, _) = future_promise();

    assert!(!prom.canceled());
    fut.release();
    assert!(prom.canceled());
}

#[test]
fn iter_none() {
    let v: Vec<()> = Future::never().into_iter().collect();
    assert_eq!(v.len(), 0);
}

#[test]
fn iter_one() {
    let v: Vec<()> = Future::with_value(()).into_iter().collect();
    assert_eq!(v.len(), 1);
}

#[test]
fn with_value_and_never_poll_resolved() {
    match Future::with_value(123).poll() {
        Pollresult::Resolved(Some(123)) => (),
        _ => panic!("unexpected result"),
    }
    match Future::<i32>::never().poll() {
        Pollresult::Resolved(None) => (),
        _ => panic!("unexpected result"),
    }
}

#[test]
fn from_option() {
    assert_eq!(Future::from(Some(3)).value(), Some(3));
    assert_eq!(Future::<i32>::from(None).value(), None);
}

#[test]
fn then_opt_on_resolved_future() {
    let fut = Future::with_value(1).then_opt(|v| v.map(|v| v + 123));
    assert!(matches!(fut, Future::Const(Some(124))));
    let fut = Future::<i32>::never().then_opt(|_| Some(5));
    assert_eq!(fut.value(), Some(5));
}

#[test]
fn then_opt_on_unfulfilled_promise() {
    let (fut, prom) = future_promise::<i32>();
    let fut = fut.then_opt(|v| match v {
        None => Some(0),
        Some(x) => Some(x),
    });
    prom.abandon();
    assert_eq!(fut.value(), Some(0));
}

#[test]
fn callback_gets_promise() {
    let (fut, prom) = future_promise();

    let fut = fut.callback(|v, p| match v {
        None => p.abandon(),
        Some(v) => p.set(v + 123),
    });
    prom.set(1);
    assert_eq!(fut.value(), Some(124))
}

#[test]
fn callback_after_completion_runs_at_once() {
    let (fut, prom) = future_promise();
    prom.set(2);
    let (tx, rx) = std::sync::mpsc::channel();
    fut.callback_unit(move |v| {
        let _ = tx.send(v);
    });
    assert_eq!(rx.try_recv(), Ok(Some(2)));
}

#[test]
fn set_after_release_is_discarded() {
    let (fut, prom) = future_promise::<i32>();
    fut.release();
    assert!(prom.canceled());
    prom.set(1);
}

#[test]
fn released_future_cancels_promise() {
    let (fut, prom) = future_promise::<i32>();
    let fut = match fut.poll() {
        Pollresult::Unresolved(f) => f,
        Pollresult::Resolved(_) => panic!("expected unresolved"),
    };
    assert!(!prom.canceled());
    fut.release();
    assert!(prom.canceled());
}

#[test]
fn iter_yields_once() {
    let (fut, prom) = future_promise();
    prom.set(8);
    let mut it = fut.into_iter();
    assert_eq!(it.next(), Some(8));
    assert_eq!(it.next(), None);
}

#[test]
fn callback_on_resolved_future_runs_at_once() {
    let (tx, rx) = std::sync::mpsc::channel();
    let fut = Future::with_value(4).callback(move |v, p| {
        let _ = tx.send(v);
        p.set(v.unwrap_or(0) * 2);
    });
    assert_eq!(rx.try_recv(), Ok(Some(4)));
    assert_eq!(fut.value(), Some(8));
}

#[test]
fn collect_of_paired_future() {
    let (fut, prom) = future_promise();
    prom.set(3);
    assert_eq!(fut.into_iter().collect(), vec![3]);
}
