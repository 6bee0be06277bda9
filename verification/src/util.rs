//! Acting on groups of `Future`s: the first value among them, or all their values.
use vstd::prelude::*;
use crate::future::{future_promise, Future, Pollresult};
use crate::futurestream::{FutureStream, StreamGoal, StreamQueue};
use crate::spawner::Spawner;

verus! {

/// The first value held by the resolved futures of `s` from position `k` on, skipping
/// those without one (it reads `Const` futures only, and stops at any other).
pub open spec fn first_const_value<T>(s: Seq<Future<T>>, k: int) -> Option<T>
    decreases s.len() - k,
{
    if k < 0 || k >= s.len() {
        None
    } else {
        match s[k] {
            Future::Const(Some(v)) => Some(v),
            Future::Const(None) => first_const_value(s, k + 1),
            Future::Prom(_) => None,
        }
    }
}

/// Whether the first `k` futures of `s` were all resolved from the start without a value.
pub open spec fn none_before<T>(s: Seq<Future<T>>, k: int) -> bool {
    forall|j: int| 0 <= j < k ==> s[j] == Future::<T>::Const(None)
}

/// Whether `f` was resolved from the start with a value.
pub open spec fn has_const_value<T>(f: Future<T>) -> bool {
    f matches Future::Const(Some(_))
}

/// What `any` makes of one polled future.
#[verifier::reject_recursive_types(T)]
pub enum Seen<T> {
    /// It has a value: that is the answer.
    Value(T),
    /// It is not resolved yet: it joins the ones waited for.
    Pending(Future<T>),
    /// It resolved without a value: it is skipped.
    NoValue,
}

/// Sorts the outcome of polling a future for `any`.
pub fn sort_polled<T>(p: Pollresult<T>) -> (s: Seen<T>)
    ensures
        p matches Pollresult::Resolved(Some(v)) ==> s == Seen::Value(v),
        p matches Pollresult::Resolved(None) ==> s == Seen::<T>::NoValue,
        p matches Pollresult::Unresolved(f) ==> s == Seen::Pending(f),
{
    match p {
        Pollresult::Resolved(Some(v)) => Seen::Value(v),
        Pollresult::Resolved(None) => Seen::NoValue,
        Pollresult::Unresolved(f) => Seen::Pending(f),
    }
}

/// Whether every future in `s` was resolved from the start.
pub open spec fn all_const<T>(s: Seq<Future<T>>) -> bool {
    forall|i: int| 0 <= i < s.len() ==> s[i] is Const
}

/// `v` back to front.
pub(crate) fn reversed<T>(v: Vec<T>) -> (r: Vec<T>)
    ensures
        r@.len() == v@.len(),
        forall|j: int| 0 <= j < v@.len() ==> r@[j] == v@[v@.len() - 1 - j],
{
    let ghost orig = v@;
    let mut src = v;
    let mut out: Vec<T> = Vec::new();
    while src.len() > 0
        invariant
            src@ == orig.subrange(0, src@.len() as int),
            out@.len() + src@.len() == orig.len(),
            forall|j: int| 0 <= j < out@.len() ==> out@[j] == orig[orig.len() - 1 - j],
        decreases src.len(),
    {
        let x = src.pop().unwrap();
        out.push(x);
    }
    out
}

/// Gives up every future in `futures`.
fn release_all<T>(futures: Vec<Future<T>>) {
    let mut rest = futures;
    while rest.len() > 0
        decreases rest.len(),
    {
        let fut = rest.pop().unwrap();
        fut.release();
    }
}

/// The first value available from `futures`: futures resolved without a value are
/// skipped, the others are given up once a value is found. `None` if none of them gets a
/// value. A future resolved from the start with a value, preceded only by futures resolved
/// from the start without one, is the one whose value is returned; when every future was
/// resolved from the start, the result is the first value among them in order. If any
/// future was resolved from the start with a value, the result is a value.
pub fn any<T: Send + 'static>(futures: Vec<Future<T>>) -> (r: Option<T>)
    ensures
        (exists|j: int| 0 <= j < futures@.len() && #[trigger] has_const_value(futures@[j])) ==> r is Some,
        r is None ==> all_const(futures@) || exists|q: StreamQueue<T>|
            !q@.must_wait(StreamGoal::Value) && q@.next_value().1 is None,
        first_const_value(futures@, 0) matches Some(v) ==> r == Some(v),
        all_const(futures@) ==> r == first_const_value(futures@, 0),
{
    let stream = FutureStream::new();
    let mut waiter = stream.waiter();
    let ghost all = futures@;
    let n = futures.len();
    let mut rest = reversed(futures);
    let mut added: usize = 0;
    let mut only_const = true;
    let mut i: usize = 0;
    while i < n
        invariant
            i <= n,
            all == futures@,
            n == all.len(),
            rest@.len() == n - i,
            forall|j: int| 0 <= j < n - i ==> rest@[j] == all[n - 1 - j],
            added <= i,
            none_before(all, i as int) ==> added == 0,
            none_before(all, i as int) ==> first_const_value(all, 0) == first_const_value(all, i as int),
            all_const(all) && !none_before(all, i as int) ==> first_const_value(all, 0) is Some,
            first_const_value(all, 0) is Some ==> none_before(all, i as int),
            forall|k: int| 0 <= k < i ==> !#[trigger] has_const_value(all[k]),
            only_const == (forall|k: int| 0 <= k < i ==> #[trigger] all[k] is Const),
        decreases n - i,
    {
        let fut = rest.pop().unwrap();
        assert(fut == all[i as int]);
        if let Future::Prom(_) = fut {
            only_const = false;
        }
        match sort_polled(fut.poll()) {
            Seen::Pending(f) => {
                stream.add(f);
                added = added + 1;
            },
            Seen::Value(v) => {
                waiter.release();
                release_all(rest);
                return Some(v);
            },
            Seen::NoValue => {},
        }
        // Check whether one of the added futures has resolved with a value meanwhile.
        if added > 0 {
            if let Some(v) = waiter.poll_value() {
                waiter.release();
                release_all(rest);
                return Some(v);
            }
        }
        i = i + 1;
    }
    // Futures that were added may still resolve: wait for a value or for none to be left.
    let r = if added > 0 || !only_const {
        waiter.wait_value()
    } else {
        None
    };
    waiter.release();
    r
}

/// A future for the values of all of `futures`, in the order in which they resolve;
/// futures resolved without a value are skipped. The waiting happens on a thread from
/// `spawner`.
pub fn all_with<T: Send + 'static, S: Spawner>(futures: Vec<Future<T>>, spawner: S) -> (r: Future<Vec<T>>)
    ensures
        r is Prom,
{
    let (f, p) = future_promise();
    let n = futures.len();
    let stream = FutureStream::from_iter(futures);
    spawner.spawn(
        move || {
            let mut waiter = stream.waiter();
            let vals = waiter.take_values(n);
            waiter.release();
            p.set(vals);
        },
    );
    f
}

} // verus!
