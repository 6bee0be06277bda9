//! The cell that a `Future` and its `Promise` share, and every change either side makes to it.
//!
//! The cell is in one of four states:
//! * `Empty`: no value yet, and the future still exists;
//! * `Gone`: the future has gone away (or handed its value on), so a value set now is lost;
//! * `Val(v)`: the promise has completed, fulfilled (`Some`) or unfulfilled (`None`);
//! * `Callback(cb)`: the future was turned into a callback, to be run when the promise completes.
//!
//! Each change is a function from the old state (and an event) to the new state and what
//! the acting thread has to do next; the handles in `future` apply them under the cell's lock.
use vstd::prelude::*;
use crate::fnbox::{FnBox, Thunk};
use crate::sync::{swap_out, Awaitable, Transition};

verus! {

/// A callback waiting for the outcome of a promise.
#[verifier::reject_recursive_types(T)]
pub struct Callback<T>(Box<dyn FnBox<Option<T>>>);

impl<T> Callback<T> {
    /// Boxes `f` as a callback.
    pub fn new<F: FnOnce(Option<T>) + Send + 'static>(f: F) -> Callback<T>
        where
            T: Send + 'static,
        requires
            forall|v: Option<T>| call_requires(f, (v,)),
    {
        Callback(Box::new(Thunk::<F, Option<T>>::new(f)))
    }

    /// Runs the callback with the outcome `v`.
    pub fn run(self, v: Option<T>) {
        self.0.call_box(v)
    }
}

/// Shared state of a `Future`/`Promise` pair.
#[verifier::reject_recursive_types(T)]
pub enum Inner<T> {
    Empty,
    Gone,
    Val(Option<T>),
    Callback(Callback<T>),
}

/// What the future found when it looked at the cell.
pub enum Taken<T> {
    /// Not resolved yet: the future stays as it is.
    Pending,
    /// Resolved, with the value if the promise was fulfilled; the future is used up.
    Ready(Option<T>),
}

/// What the completing promise has to do once the new state is stored.
#[verifier::reject_recursive_types(T)]
pub enum Delivery<T> {
    /// The value was stored: wake the thread that may be waiting for it.
    Wake,
    /// Nobody will ever read the value: drop it.
    Discard,
    /// Run the callback with the outcome.
    Run(Callback<T>, Option<T>),
}

/// What the future has to do once it has attached a callback.
#[verifier::reject_recursive_types(T)]
pub enum Attach<T> {
    /// Stored: the promise runs the callback when it completes.
    Deferred,
    /// The promise has already completed: run the callback with the outcome now.
    RunNow(Callback<T>, Option<T>),
    /// The cell can no longer take a callback (it is `Gone` or already holds one);
    /// the callback is dropped.
    Refused,
}

impl<T> Inner<T> {
    /// The states that a live future can find: the callback and `Gone` states only
    /// arise once the future has been used up.
    pub open spec fn seen_by_future(self) -> bool {
        self is Empty || self is Val
    }

    /// Whether a value set now would be lost because the future has gone away.
    pub open spec fn spec_canceled(self) -> bool {
        self is Gone
    }

    /// The future looks at the cell: a stored outcome is taken (and the future, used up,
    /// leaves the cell `Gone`); anything else is left as it is.
    pub open spec fn spec_take(self) -> (Inner<T>, Taken<T>) {
        match self {
            Inner::Val(v) => (Inner::Gone, Taken::Ready(v)),
            other => (other, Taken::Pending),
        }
    }

    /// The promise completes with `v` (`None`: unfulfilled).
    pub open spec fn spec_complete(self, v: Option<T>) -> (Inner<T>, Delivery<T>) {
        match self {
            Inner::Empty => (Inner::Val(v), Delivery::Wake),
            Inner::Gone => (Inner::Gone, Delivery::Discard),
            Inner::Val(w) => (Inner::Val(w), Delivery::Discard),
            Inner::Callback(cb) => (Inner::Gone, Delivery::Run(cb, v)),
        }
    }

    /// The future goes away without having taken an outcome.
    pub open spec fn spec_release(self) -> Inner<T> {
        match self {
            Inner::Empty => Inner::Gone,
            other => other,
        }
    }

    /// The future is turned into the callback `cb`: stored if the promise has not
    /// completed yet, handed back with the outcome if it has.
    pub open spec fn spec_attach(self, cb: Callback<T>) -> (Inner<T>, Attach<T>) {
        match self {
            Inner::Empty => (Inner::Callback(cb), Attach::Deferred),
            Inner::Val(v) => (Inner::Gone, Attach::RunNow(cb, v)),
            other => (other, Attach::Refused),
        }
    }

    /// A fresh cell: no value yet.
    pub open spec fn new_spec() -> Inner<T> {
        Inner::Empty
    }

    /// A fresh cell: no value yet.
    pub fn new() -> (s: Inner<T>)
        ensures
            s == Inner::<T>::new_spec(),
    {
        Inner::Empty
    }

    /// Whether a value set now would be lost because the future has gone away.
    pub fn canceled(&self) -> (b: bool)
        ensures
            b == (*self is Gone),
    {
        match self {
            Inner::Gone => true,
            _ => false,
        }
    }

    /// Applies `spec_take`.
    pub fn take(self) -> (r: (Inner<T>, Taken<T>))
        ensures
            r == self.spec_take(),
    {
        match self {
            Inner::Val(v) => (Inner::Gone, Taken::Ready(v)),
            other => (other, Taken::Pending),
        }
    }

    /// Applies `spec_complete`.
    pub fn complete(self, v: Option<T>) -> (r: (Inner<T>, Delivery<T>))
        ensures
            r == self.spec_complete(v),
    {
        match self {
            Inner::Empty => (Inner::Val(v), Delivery::Wake),
            Inner::Gone => (Inner::Gone, Delivery::Discard),
            Inner::Val(w) => (Inner::Val(w), Delivery::Discard),
            Inner::Callback(cb) => (Inner::Gone, Delivery::Run(cb, v)),
        }
    }

    /// Applies `spec_release`.
    pub fn release(self) -> (s: Inner<T>)
        ensures
            s == self.spec_release(),
    {
        match self {
            Inner::Empty => Inner::Gone,
            other => other,
        }
    }

    /// Applies `spec_attach`.
    pub fn attach(self, cb: Callback<T>) -> (r: (Inner<T>, Attach<T>))
        ensures
            r == self.spec_attach(cb),
    {
        match self {
            Inner::Empty => (Inner::Callback(cb), Attach::Deferred),
            Inner::Val(v) => (Inner::Gone, Attach::RunNow(cb, v)),
            other => (other, Attach::Refused),
        }
    }
}

impl<T> Awaitable for Inner<T> {
    type Goal = ();

    /// A reader waits as long as the promise has not completed.
    open spec fn spec_must_wait(&self, goal: ()) -> bool {
        *self is Empty
    }

    fn must_wait(&self, goal: &()) -> (b: bool) {
        match self {
            Inner::Empty => true,
            _ => false,
        }
    }

    /// A cell whose future has gone: nothing is left to read.
    fn settled(goal: &()) -> (s: Inner<T>) {
        Inner::Gone
    }
}

/// Event: the future looks at the cell (`Inner::spec_take`).
pub struct Look;

/// Event: the promise completes with the outcome (`Inner::spec_complete`).
pub struct Complete<T>(pub Option<T>);

/// Event: the future goes away without taking an outcome (`Inner::spec_release`).
pub struct Release;

/// Event: the future is turned into the callback (`Inner::spec_attach`).
#[verifier::reject_recursive_types(T)]
pub struct AttachCallback<T>(pub Callback<T>);

/// Event: the promise asks whether the future has gone (`Inner::canceled`).
pub struct AskCanceled;

impl<T> Transition<Look> for Inner<T> {
    type Out = Taken<T>;

    open spec fn stepped(self, e: Look, next: Self, out: Taken<T>) -> bool {
        (next, out) == self.spec_take()
    }

    fn step(&mut self, e: Look) -> (out: Taken<T>) {
        let (next, out) = swap_out(self, Inner::Gone).take();
        *self = next;
        out
    }
}

impl<T> Transition<Complete<T>> for Inner<T> {
    type Out = Delivery<T>;

    open spec fn stepped(self, e: Complete<T>, next: Self, out: Delivery<T>) -> bool {
        (next, out) == self.spec_complete(e.0)
    }

    fn step(&mut self, e: Complete<T>) -> (out: Delivery<T>) {
        let (next, out) = swap_out(self, Inner::Gone).complete(e.0);
        *self = next;
        out
    }
}

impl<T> Transition<Release> for Inner<T> {
    type Out = ();

    open spec fn stepped(self, e: Release, next: Self, out: ()) -> bool {
        next == self.spec_release()
    }

    fn step(&mut self, e: Release) {
        let next = swap_out(self, Inner::Gone).release();
        *self = next;
    }
}

impl<T> Transition<AttachCallback<T>> for Inner<T> {
    type Out = Attach<T>;

    open spec fn stepped(self, e: AttachCallback<T>, next: Self, out: Attach<T>) -> bool {
        (next, out) == self.spec_attach(e.0)
    }

    fn step(&mut self, e: AttachCallback<T>) -> (out: Attach<T>) {
        let (next, out) = swap_out(self, Inner::Gone).attach(e.0);
        *self = next;
        out
    }
}

impl<T> Transition<AskCanceled> for Inner<T> {
    type Out = bool;

    open spec fn stepped(self, e: AskCanceled, next: Self, out: bool) -> bool {
        next == self && out == self.spec_canceled()
    }

    fn step(&mut self, e: AskCanceled) -> (out: bool) {
        self.canceled()
    }
}

} // verus!

verus! {

/// What the promise stores is what the future reads: completing a fresh cell with `v`
/// (a value, or none when the promise is abandoned) and then taking gives back exactly
/// `v`, and leaves the cell `Gone` since the future is used up.
pub proof fn law_take_reads_completion<T>(v: Option<T>)
    ensures
        Inner::<T>::new_spec().spec_complete(v).1 == Delivery::<T>::Wake,
        Inner::<T>::new_spec().spec_complete(v).0.spec_take() == (Inner::<T>::Gone, Taken::Ready(v)),
{
}

/// Looking at a cell whose promise has not completed changes nothing.
pub proof fn law_pending_take_is_idle<T>()
    ensures
        Inner::<T>::new_spec().spec_take() == (Inner::<T>::new_spec(), Taken::<T>::Pending),
{
}

/// A promise is write-once: once an outcome is stored, a further completion discards
/// what it offers and leaves the stored outcome in place.
pub proof fn law_write_once<T>(s: Inner<T>, w: Option<T>)
    requires
        s is Val,
    ensures
        s.spec_complete(w) == (s, Delivery::<T>::Discard),
{
}

/// A future given up before its promise completes makes the promise canceled, and the
/// outcome the promise then offers is discarded.
pub proof fn law_release_cancels<T>(v: Option<T>)
    ensures
        Inner::<T>::new_spec().spec_release() is Gone,
        Inner::<T>::new_spec().spec_release().spec_complete(v) == (Inner::<T>::Gone, Delivery::<T>::Discard),
{
}

/// A future given up after its promise completed leaves the outcome where it is, and
/// the promise is not reported canceled.
pub proof fn law_release_after_completion<T>(s: Inner<T>)
    requires
        s is Val,
    ensures
        s.spec_release() == s,
        !(s.spec_release() is Gone),
{
}

/// A callback gets the promise's outcome whichever comes first: attached before the
/// promise completes, the promise runs it with the outcome; attached after, it is run at
/// once with the stored outcome. Either way the cell ends up `Gone`.
pub proof fn law_callback_gets_outcome<T>(cb: Callback<T>, v: Option<T>)
    ensures
        Inner::<T>::new_spec().spec_attach(cb).1 == Attach::<T>::Deferred,
        Inner::<T>::new_spec().spec_attach(cb).0.spec_complete(v) == (Inner::<T>::Gone, Delivery::Run(cb, v)),
        Inner::<T>::new_spec().spec_complete(v).0.spec_attach(cb) == (Inner::<T>::Gone, Attach::RunNow(cb, v)),
{
}

/// The cell after the promise side completes it with each outcome of `vs` in turn.
pub open spec fn completed_with<T>(s: Inner<T>, vs: Seq<Option<T>>) -> Inner<T>
    decreases vs.len(),
{
    if vs.len() == 0 {
        s
    } else {
        completed_with(s.spec_complete(vs[0]).0, vs.drop_first())
    }
}

/// While the future is live, the cell only changes by completions of the promise (a look
/// that finds nothing changes nothing), so starting from a fresh cell the future can only
/// ever find `Empty` or `Val`: the `Gone` and callback states are out of its reach, and
/// what it reads is the first outcome offered.
pub proof fn law_live_future_sees_first_outcome<T>(vs: Seq<Option<T>>)
    ensures
        completed_with(Inner::<T>::new_spec(), vs).seen_by_future(),
        vs.len() > 0 ==> completed_with(Inner::<T>::new_spec(), vs) == Inner::<T>::Val(vs[0]),
        vs.len() == 0 ==> completed_with(Inner::<T>::new_spec(), vs) == Inner::<T>::new_spec(),
{
    if vs.len() > 0 {
        lemma_completions_keep_val(Inner::<T>::Val(vs[0]), vs.drop_first());
    }
}

proof fn lemma_completions_keep_val<T>(s: Inner<T>, vs: Seq<Option<T>>)
    requires
        s is Val,
    ensures
        completed_with(s, vs) == s,
    decreases vs.len(),
{
    if vs.len() > 0 {
        lemma_completions_keep_val(s.spec_complete(vs[0]).0, vs.drop_first());
    }
}

/// The states a live future can meet (`Empty` and `Val`) are the only ones the promise
/// side produces from them, and the promise side then never has a callback to run.
pub proof fn law_promise_keeps_future_view<T>(s: Inner<T>, v: Option<T>)
    requires
        s.seen_by_future(),
    ensures
        s.spec_complete(v).0.seen_by_future(),
        !(s.spec_complete(v).1 is Run),
{
}

} // verus!
