//! `Future`s, `Promise`s and the ways of chaining them.
//!
//! A `Future` is either resolved from the start (`Const`) or shares a cell with its
//! `Promise` (`Prom`). Every look at or change to a shared cell takes the cell's lock, takes
//! the state out, hands it to one of the transitions of `Inner`, stores what comes back and
//! then does what the transition asks (wake the reader, run a callback).
//!
//! Handles are given up explicitly: a `Promise` is completed by `set` or `abandon`, and a
//! `Future` that is no longer wanted is given up with `release`, which is what lets
//! `Promise::canceled` report that nobody will read the value.
use std::sync::Arc;
use vstd::prelude::*;
use crate::inner::{AskCanceled, Attach, AttachCallback, Callback, Complete, Delivery, Inner, Look, Release, Taken};
use crate::spawner::Spawner;
use crate::sync::{notify_one, share, update, update_when, Awaitable, CvMx};

verus! {

/// Result of calling `Future::poll`.
#[verifier::reject_recursive_types(T)]
pub enum Pollresult<T> {
    /// The `Future` is not yet resolved; it is handed back for further use.
    Unresolved(Future<T>),
    /// The `Future` has been resolved, with a value or without; it has been used up.
    Resolved(Option<T>),
}

/// An undetermined value, which the corresponding `Promise` may set.
#[verifier::reject_recursive_types(T)]
pub enum Future<T> {
    /// Resolved from the start, with a value or without.
    Const(Option<T>),
    /// Shares its cell with a `Promise`.
    Prom(Arc<CvMx<Inner<T>>>),
}

/// A write-once box for resolving a `Future`.
#[verifier::reject_recursive_types(T)]
pub struct Promise<T>(Arc<CvMx<Inner<T>>>);

/// Blocking iterator over the value of a `Future`: yields it once, if there is one.
#[verifier::reject_recursive_types(T)]
pub struct FutureIter<T>(Option<Future<T>>);

/// Whether `f` is the future whose cell `p` completes.
pub open spec fn paired<T>(f: Future<T>, p: Promise<T>) -> bool {
    f == Future::Prom(p.cell())
}

/// What `poll` makes of what the future found in the cell `cell`: resolved with the
/// outcome taken, or the future handed back unresolved.
pub open spec fn poll_found<T>(cell: Arc<CvMx<Inner<T>>>, t: Taken<T>) -> Pollresult<T> {
    match t {
        Taken::Pending => Pollresult::Unresolved(Future::Prom(cell)),
        Taken::Ready(v) => Pollresult::Resolved(v),
    }
}

/// What `value` makes of what the future found: the outcome taken, or no value if there
/// was none to take.
pub open spec fn value_found<T>(t: Taken<T>) -> Option<T> {
    match t {
        Taken::Pending => None,
        Taken::Ready(v) => v,
    }
}

/// Whether `r` is an outcome that `f` resolves to: its own outcome for a future resolved
/// from the start; for one sharing a cell, what `value_found` takes from a state of the
/// cell in which the promise has completed (not `Empty`).
pub open spec fn resolved_outcome<T>(f: Future<T>, r: Option<T>) -> bool {
    match f {
        Future::Const(v) => r == v,
        Future::Prom(_) => exists|s: Inner<T>| !(s is Empty) && r == value_found(s.spec_take().1),
    }
}

/// Applies `poll_found`.
fn poll_result<T>(cell: Arc<CvMx<Inner<T>>>, t: Taken<T>) -> (r: Pollresult<T>)
    ensures
        r == poll_found(cell, t),
{
    match t {
        Taken::Pending => Pollresult::Unresolved(Future::Prom(cell)),
        Taken::Ready(v) => Pollresult::Resolved(v),
    }
}

/// Applies `value_found`.
fn value_result<T>(t: Taken<T>) -> (r: Option<T>)
    ensures
        r == value_found(t),
{
    match t {
        Taken::Pending => None,
        Taken::Ready(v) => v,
    }
}

/// Whether `o` is what mapping `func` over `v` may give: nothing for nothing, and a
/// result of `func` for a value.
pub open spec fn lifted<T, U, F: FnOnce(T) -> U>(func: F, v: Option<T>, o: Option<U>) -> bool {
    match v {
        Some(x) => o matches Some(y) && call_ensures(func, (x,), y),
        None => o is None,
    }
}

impl<T> Future<T> {
    /// A future sharing the cell `inner`.
    pub fn new(inner: &Arc<CvMx<Inner<T>>>) -> (f: Future<T>)
        ensures
            f == Future::Prom(*inner),
    {
        Future::Prom(share(inner))
    }

    /// An already resolved future with a value, as if its promise had been fulfilled.
    pub fn with_value(v: T) -> (f: Future<T>)
        ensures
            f == Future::Const(Some(v)),
    {
        Future::Const(Some(v))
    }

    /// A resolved future that will never have a value, as if its promise had been
    /// completed unfulfilled.
    pub fn never() -> (f: Future<T>)
        ensures
            f == Future::<T>::Const(None),
    {
        Future::Const(None)
    }

    /// A resolved future holding `v` (`never` for `None`).
    pub fn from_option(v: Option<T>) -> (f: Future<T>)
        ensures
            f == Future::Const(v),
    {
        match v {
            None => Future::never(),
            Some(v) => Future::with_value(v),
        }
    }

    /// Tests whether the future is resolved, without blocking: `Resolved` with its
    /// outcome (using the future up), or `Unresolved` with the future itself. (A live
    /// future never finds its cell `Gone` or holding a callback; were it to, it would be
    /// handed back unresolved, as `Inner::take` leaves such a cell alone.)
    pub fn poll(self) -> (r: Pollresult<T>)
        ensures
            self matches Future::Const(v) ==> r == Pollresult::Resolved(v),
            self matches Future::Prom(cell) ==> exists|s: Inner<T>| r == poll_found(cell, s.spec_take().1),
            r matches Pollresult::Unresolved(f) ==> f == self && self is Prom,
    {
        match self {
            Future::Const(v) => Pollresult::Resolved(v),
            Future::Prom(cell) => {
                let taken = update(&*cell, Look);
                poll_result(cell, taken)
            },
        }
    }

    /// Blocks until the future is resolved: `Some(v)` if its promise was fulfilled with
    /// `v`, `None` if it was completed unfulfilled. A resolved future returns at once.
    ///
    /// The wait ends once the cell is no longer `Empty`. A live future then finds `Val`
    /// (`inner::law_live_future_sees_first_outcome`); the cell could only be `Gone` or hold
    /// a callback after this future had been used up, and then `None` is returned.
    pub fn value(self) -> (r: Option<T>)
        ensures
            self matches Future::Const(v) ==> r == v,
            self is Prom ==> exists|s: Inner<T>| !(s is Empty) && r == value_found(s.spec_take().1),
            resolved_outcome(self, r),
    {
        match self {
            Future::Const(v) => v,
            Future::Prom(cell) => {
                let taken = update_when(&*cell, &(), Look);
                value_result(taken)
            },
        }
    }

    /// Gives the future up without reading it: a value set later is discarded, and the
    /// promise reports itself canceled.
    pub fn release(self) {
        match self {
            Future::Const(_) => {},
            Future::Prom(cell) => update(&*cell, Release),
        }
    }

    /// A blocking iterator that yields the future's value, if it gets one.
    pub fn into_iter(self) -> (it: FutureIter<T>)
        ensures
            it.future() == Some(self),
    {
        FutureIter(Some(self))
    }
}

impl<T: Send + 'static> Future<T> {
    /// Sets a callback to run with the outcome in the promise's context (in the caller's,
    /// if the future is already resolved). Unlike `callback`, the callback returns nothing
    /// and is only useful for its effects.
    pub fn callback_unit<F: FnOnce(Option<T>) + Send + 'static>(self, func: F)
        requires
            forall|v: Option<T>| call_requires(func, (v,)),
        ensures
            self matches Future::Const(v) ==> call_ensures(func, (v,), ()),
    {
        match self {
            Future::Const(v) => func(v),
            Future::Prom(cell) => {
                let cb = Callback::new(func);
                let attached = update(&*cell, AttachCallback(cb));
                match attached {
                    Attach::RunNow(cb, v) => cb.run(v),
                    Attach::Deferred => {},
                    Attach::Refused => {},
                }
            },
        }
    }

    /// Sets a general callback, run with the outcome (`None`: unfulfilled) in the promise's
    /// context. It is handed a new `Promise`, paired with the returned `Future`, which it
    /// may set, pass on, or abandon.
    pub fn callback<U, F>(self, func: F) -> (r: Future<U>)
        where
            F: FnOnce(Option<T>, Promise<U>) + Send + 'static,
            U: Send + 'static,
        requires
            forall|v: Option<T>, p: Promise<U>| call_requires(func, (v, p)),
        ensures
            r is Prom,
            self matches Future::Const(v) ==> exists|p: Promise<U>| paired(r, p) && call_ensures(func, (v, p), ()),
    {
        let (fut, prom) = future_promise();
        let ghost given = prom;
        let ghost f = func;
        self.callback_unit(move |v: Option<T>| ensures call_ensures(f, (v, given), ()) { func(v, prom) });
        fut
    }

    /// Sets a synchronous callback from the outcome to the outcome of the returned future.
    /// A resolved future is mapped at once.
    pub fn then_opt<U, F>(self, func: F) -> (r: Future<U>)
        where
            F: FnOnce(Option<T>) -> Option<U> + Send + 'static,
            U: Send + 'static,
        requires
            forall|v: Option<T>| call_requires(func, (v,)),
        ensures
            self matches Future::Const(v) ==> (r matches Future::Const(u) && call_ensures(func, (v,), u)),
            self is Prom ==> r is Prom,
    {
        match self {
            Future::Const(v) => Future::Const(func(v)),
            Future::Prom(cell) => Future::Prom(cell).callback(
                move |v: Option<T>, p: Promise<U>|
                    match func(v) {
                        Some(u) => p.set(u),
                        None => p.abandon(),
                    },
            ),
        }
    }

    /// Sets a synchronous callback on the value: the returned future gets `func(v)` if
    /// this one gets `v`, and no value if this one gets none.
    pub fn then<U, F>(self, func: F) -> (r: Future<U>)
        where
            F: FnOnce(T) -> U + Send + 'static,
            U: Send + 'static,
        requires
            forall|v: T| call_requires(func, (v,)),
        ensures
            self matches Future::Const(Some(v)) ==> (r matches Future::Const(Some(u)) && call_ensures(func, (v,), u)),
            self matches Future::Const(None) ==> r == Future::<U>::Const(None),
            self is Prom ==> r is Prom,
    {
        self.then_opt(
            move |v: Option<T>| -> (o: Option<U>) ensures lifted(func, v, o) {
                match v {
                    Some(x) => Some(func(x)),
                    None => None,
                }
            },
        )
    }

    /// Applies `func` to the outcome on a thread from `spawner`, which may block waiting
    /// for it; the returned future gets what `func` returns.
    pub fn chain_with<U, F, S>(self, func: F, spawner: &S) -> (r: Future<U>)
        where
            F: FnOnce(Option<T>) -> Option<U> + Send + 'static,
            U: Send + 'static,
            S: Spawner,
        requires
            forall|v: Option<T>| call_requires(func, (v,)),
        ensures
            r is Prom,
    {
        let (f, p) = future_promise();
        let ghost source = self;
        let ghost g = func;
        spawner.spawn(
            move || ensures exists|v: Option<T>, u: Option<U>| resolved_outcome(source, v) && call_ensures(g, (v,), u) {
                let v = self.value();
                let u = func(v);
                match u {
                    Some(x) => p.set(x),
                    None => p.abandon(),
                }
            },
        );
        f
    }
}

impl<T> From<Option<T>> for Future<T> {
    /// A resolved future holding `v` (`never` for `None`).
    fn from(v: Option<T>) -> (f: Future<T>) {
        Future::from_option(v)
    }
}

impl<T> vstd::std_specs::convert::FromSpecImpl<Option<T>> for Future<T> {
    open spec fn obeys_from_spec() -> bool {
        true
    }

    open spec fn from_spec(v: Option<T>) -> Future<T> {
        Future::Const(v)
    }
}

impl<T> Promise<T> {
    /// The cell this promise completes.
    pub closed spec fn cell(self) -> Arc<CvMx<Inner<T>>> {
        self.0
    }

    /// A promise completing the cell `inner`.
    pub fn new(inner: Arc<CvMx<Inner<T>>>) -> (p: Promise<T>)
        ensures
            p.cell() == inner,
    {
        Promise(inner)
    }

    /// Completes the cell with `v`, then does what the transition asks.
    fn complete(self, v: Option<T>) {
        let delivery = update(&*self.0, Complete(v));
        match delivery {
            Delivery::Wake => notify_one(&*self.0),
            Delivery::Discard => {},
            Delivery::Run(cb, v) => cb.run(v),
        }
    }

    /// Fulfills the promise, resolving its future with `v`.
    pub fn set(self, v: T) {
        self.complete(Some(v))
    }

    /// Completes the promise unfulfilled: its future resolves with no value.
    pub fn abandon(self) {
        self.complete(None)
    }

    /// Whether the future has gone away, so that a value set now would be discarded.
    pub fn canceled(&self) -> (b: bool)
        ensures
            exists|s: Inner<T>| b == s.spec_canceled(),
    {
        update(&*self.0, AskCanceled)
    }
}

impl<T> FutureIter<T> {
    /// The future not yet read, if any.
    pub closed spec fn future(self) -> Option<Future<T>> {
        self.0
    }

    /// Blocks for the future's value the first time; `None` after that, or if the future
    /// gets no value.
    pub fn next(&mut self) -> (r: Option<T>)
        ensures
            final(self).future() is None,
            old(self).future() is None ==> r is None,
            old(self).future() matches Some(Future::Const(v)) ==> r == v,
    {
        match self.0.take() {
            None => None,
            Some(fut) => fut.value(),
        }
    }

    /// All that the iterator yields: the value, if the future gets one.
    pub fn collect(self) -> (r: Vec<T>)
        ensures
            r@.len() <= 1,
            self.future() matches Some(Future::Const(v)) ==> r@ == (match v {
                Some(x) => seq![x],
                None => Seq::<T>::empty(),
            }),
            self.future() is None ==> r@ == Seq::<T>::empty(),
    {
        // `next` yields at most once: after the first call the future is gone.
        let mut it = self;
        let mut out: Vec<T> = Vec::new();
        if let Some(x) = it.next() {
            out.push(x);
        }
        out
    }
}

/// A `Future`/`Promise` pair: the promise determines what the future resolves to.
pub fn future_promise<T>() -> (r: (Future<T>, Promise<T>))
    ensures
        paired(r.0, r.1),
        r.1.cell().initial() == Inner::<T>::new_spec(),
{
    let inner = Arc::new(CvMx::new(Inner::new()));
    let f = Future::new(&inner);
    let p = Promise::new(inner);
    (f, p)
}

} // verus!

verus! {

/// What `poll` makes of the states a live future can meet: an empty cell hands the
/// future back unresolved, and a completed one gives exactly the stored outcome.
pub proof fn law_poll_reads_stored<T>(cell: Arc<CvMx<Inner<T>>>, s: Inner<T>)
    requires
        s.seen_by_future(),
    ensures
        s is Empty ==> poll_found(cell, s.spec_take().1) == Pollresult::Unresolved(Future::Prom(cell)),
        s matches Inner::Val(v) ==> poll_found(cell, s.spec_take().1) == Pollresult::<T>::Resolved(v),
{
}

/// A future reads what its promise wrote: after the promise side has completed a fresh
/// cell with the outcomes `vs` (the first one counts), the cell is no longer `Empty`, so a
/// waiting `value` stops waiting, and `value` and `poll` both give `vs[0]`.
pub proof fn law_value_reads_first_completion<T>(cell: Arc<CvMx<Inner<T>>>, vs: Seq<Option<T>>)
    requires
        vs.len() > 0,
    ensures
        !(crate::inner::completed_with(Inner::<T>::new_spec(), vs) is Empty),
        value_found(crate::inner::completed_with(Inner::<T>::new_spec(), vs).spec_take().1) == vs[0],
        poll_found(cell, crate::inner::completed_with(Inner::<T>::new_spec(), vs).spec_take().1)
            == Pollresult::<T>::Resolved(vs[0]),
{
    crate::inner::law_live_future_sees_first_outcome(vs);
}

/// Waiting for a future ends exactly when its promise has completed, and then the future
/// reads what was stored: in every state a live future can meet, `value` has to wait only
/// while the cell is fresh, and once the wait is over the outcome taken is the stored one.
/// So the outcome a paired future resolves to (`resolved_outcome`) is, in such a state,
/// the stored outcome, never a made-up `None` for a promise that has not completed.
pub proof fn law_value_waits_for_completion<T>(cell: Arc<CvMx<Inner<T>>>, s: Inner<T>, r: Option<T>)
    requires
        s.seen_by_future(),
    ensures
        s.spec_must_wait(()) <==> s == Inner::<T>::new_spec(),
        !s.spec_must_wait(()) ==> s.spec_take().1 == Taken::Ready(s->Val_0),
        !(s is Empty) && r == value_found(s.spec_take().1) ==> s == Inner::Val(r),
{
}

/// A future resolved from the start resolves to its own outcome, and to nothing else.
pub proof fn law_resolved_outcome_of_const<T>(v: Option<T>, r: Option<T>)
    ensures
        resolved_outcome(Future::Const(v), r) <==> r == v,
{
}

} // verus!
