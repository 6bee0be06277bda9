//! Waiting on many `Future`s at once, taking their outcomes as they resolve.
//!
//! A stream counts the futures added to it that have not resolved yet (`pending`) and
//! queues the outcomes of those that have (`ready`), in the order in which they resolved.
//! Each added future gets a callback that moves it from the one to the other. One waiter
//! at a time may take outcomes off the queue.
use std::collections::VecDeque;
use std::sync::Arc;
use vstd::prelude::*;
use crate::future::Future;
use crate::sync::{notify_all, notify_one, share, update, update_when, Awaitable, CvMx, Transition};

verus! {

/// The outcomes of a stream's futures: how many are still unresolved, and the outcomes
/// of the resolved ones not yet taken, oldest first.
pub struct StreamQueue<T> {
    pub pending: usize,
    pub ready: VecDeque<Option<T>>,
}

/// What a `StreamQueue` holds, as plain values.
pub struct QueueView<T> {
    pub pending: nat,
    pub ready: Seq<Option<T>>,
}

/// What a waiter on a stream waits for.
pub enum StreamGoal {
    /// Some future resolved, with a value or without.
    Resolved,
    /// Some future resolved with a value.
    Value,
}

/// Whether the single waiter of a stream is free to be taken.
pub struct WaiterSlot {
    pub free: bool,
}

/// The position of the first value in `s` (`s.len()` if there is none).
pub open spec fn first_value_at<T>(s: Seq<Option<T>>) -> int
    decreases s.len(),
{
    if s.len() == 0 {
        0
    } else if s[0] is Some {
        0
    } else {
        1 + first_value_at(s.drop_first())
    }
}

/// Whether `s` holds a value.
pub open spec fn has_value<T>(s: Seq<Option<T>>) -> bool {
    exists|i: int| 0 <= i < s.len() && s[i] is Some
}

/// `first_value_at` is the position of the first value: everything before it has none.
pub proof fn lemma_first_value_at<T>(s: Seq<Option<T>>)
    ensures
        0 <= first_value_at(s) <= s.len(),
        forall|i: int| 0 <= i < first_value_at(s) ==> s[i] is None,
        has_value(s) <==> first_value_at(s) < s.len(),
        first_value_at(s) < s.len() ==> s[first_value_at(s)] is Some,
    decreases s.len(),
{
    if s.len() > 0 && s[0] is None {
        lemma_first_value_at(s.drop_first());
        assert forall|i: int| 0 <= i < first_value_at(s) implies s[i] is None by {
            if i > 0 {
                assert(s[i] == s.drop_first()[i - 1]);
            }
        }
        if has_value(s) {
            let i = choose|i: int| 0 <= i < s.len() && s[i] is Some;
            assert(s.drop_first()[i - 1] is Some);
        }
        if has_value(s.drop_first()) {
            let i = choose|i: int| 0 <= i < s.len() - 1 && s.drop_first()[i] is Some;
            assert(s[i + 1] is Some);
        }
    }
}

impl<T> QueueView<T> {
    /// Futures added and not yet taken off the stream: unresolved, or resolved and queued.
    pub open spec fn outstanding(self) -> nat {
        self.pending + self.ready.len()
    }

    /// `outstanding`, stopping at `usize::MAX`.
    pub open spec fn capped_outstanding(self) -> int {
        if self.outstanding() <= usize::MAX { self.outstanding() as int } else { usize::MAX as int }
    }

    /// A future is added: one more is pending (the count stops at `usize::MAX`).
    pub open spec fn enlisted(self) -> QueueView<T> {
        QueueView {
            pending: if self.pending < usize::MAX { self.pending + 1 } else { self.pending },
            ready: self.ready,
        }
    }

    /// A pending future resolves with `v`: it joins the back of the queue.
    pub open spec fn resolved(self, v: Option<T>) -> QueueView<T> {
        QueueView {
            pending: if self.pending > 0 { (self.pending - 1) as nat } else { 0 },
            ready: self.ready.push(v),
        }
    }

    /// Taking the oldest queued outcome, if any.
    pub open spec fn next_resolved(self) -> (QueueView<T>, Option<Option<T>>) {
        if self.ready.len() == 0 {
            (self, None)
        } else {
            (QueueView { pending: self.pending, ready: self.ready.drop_first() }, Some(self.ready[0]))
        }
    }

    /// Taking the oldest queued value, if any; the outcomes without a value queued before
    /// it are dropped (all of them, if there is no value).
    pub open spec fn next_value(self) -> (QueueView<T>, Option<T>) {
        let k = first_value_at(self.ready);
        if k < self.ready.len() {
            (QueueView { pending: self.pending, ready: self.ready.skip(k + 1) }, self.ready[k])
        } else {
            (QueueView { pending: self.pending, ready: Seq::empty() }, None)
        }
    }

    /// Whether a waiter for `goal` has to keep waiting: nothing it could take is queued,
    /// and some future may still resolve.
    pub open spec fn must_wait(self, goal: StreamGoal) -> bool {
        self.pending > 0 && match goal {
            StreamGoal::Resolved => self.ready.len() == 0,
            StreamGoal::Value => !has_value(self.ready),
        }
    }
}

impl<T> View for StreamQueue<T> {
    type V = QueueView<T>;

    open spec fn view(&self) -> QueueView<T> {
        QueueView { pending: self.pending as nat, ready: self.ready@ }
    }
}

impl<T> StreamQueue<T> {
    /// An empty queue.
    pub fn new() -> (q: StreamQueue<T>)
        ensures
            q@ == (QueueView { pending: 0, ready: Seq::<Option<T>>::empty() }),
    {
        StreamQueue { pending: 0, ready: VecDeque::new() }
    }

    /// Applies `QueueView::enlisted`. (The count cannot in fact reach `usize::MAX`, as
    /// every pending future holds memory of its own.)
    pub fn enlist(&mut self)
        ensures
            final(self)@ == old(self)@.enlisted(),
    {
        if self.pending < usize::MAX {
            self.pending = self.pending + 1;
        }
    }

    /// Applies `QueueView::resolved`.
    pub fn resolve(&mut self, v: Option<T>)
        ensures
            final(self)@ == old(self)@.resolved(v),
    {
        if self.pending > 0 {
            self.pending = self.pending - 1;
        }
        self.ready.push_back(v);
    }

    /// Applies `QueueView::next_resolved`.
    pub fn next_resolved(&mut self) -> (r: Option<Option<T>>)
        ensures
            (final(self)@, r) == old(self)@.next_resolved(),
    {
        let r = self.ready.pop_front();
        proof {
            if old(self).ready@.len() == 0 {
                assert(self.ready@ =~= old(self).ready@);
            }
        }
        r
    }

    /// Applies `QueueView::next_value`.
    pub fn next_value(&mut self) -> (r: Option<T>)
        ensures
            (final(self)@, r) == old(self)@.next_value(),
    {
        let ghost start = self.ready@;
        proof {
            lemma_first_value_at(start);
        }
        let ghost k = first_value_at(start);
        let ghost mut dropped: int = 0;
        loop
            invariant
                0 <= dropped <= k,
                self.ready@ == start.skip(dropped),
                self.pending == old(self).pending,
                start == old(self).ready@,
                0 <= k <= start.len(),
                forall|i: int| 0 <= i < k ==> start[i] is None,
                k < start.len() ==> start[k] is Some,
                k == first_value_at(start),
            decreases self.ready@.len(),
        {
            match self.ready.pop_front() {
                None => {
                    assert(dropped == start.len());
                    assert(self.ready@ =~= Seq::<Option<T>>::empty());
                    return None;
                },
                Some(Some(x)) => {
                    assert(start[dropped] is Some);
                    assert(dropped == k);
                    assert(self.ready@ =~= start.skip(k + 1));
                    return Some(x);
                },
                Some(None) => {
                    proof {
                        assert(start.skip(dropped).drop_first() =~= start.skip(dropped + 1));
                        dropped = dropped + 1;
                    }
                },
            }
        }
    }

    /// Futures added and not yet taken off the stream (saturating at `usize::MAX`).
    pub fn outstanding(&self) -> (n: usize)
        ensures
            self@.outstanding() <= usize::MAX ==> n == self@.outstanding(),
            self@.outstanding() > usize::MAX ==> n == usize::MAX,
    {
        self.pending.saturating_add(self.ready.len())
    }
}

impl<T> Awaitable for StreamQueue<T> {
    type Goal = StreamGoal;

    /// Applies `QueueView::must_wait`.
    open spec fn spec_must_wait(&self, goal: StreamGoal) -> bool {
        self@.must_wait(goal)
    }

    /// An empty queue with nothing pending.
    fn settled(goal: &StreamGoal) -> (q: StreamQueue<T>) {
        StreamQueue::new()
    }

    fn must_wait(&self, goal: &StreamGoal) -> (b: bool) {
        if self.pending == 0 {
            return false;
        }
        match goal {
            StreamGoal::Resolved => self.ready.len() == 0,
            StreamGoal::Value => {
                let n = self.ready.len();
                let mut i: usize = 0;
                while i < n
                    invariant
                        n == self.ready@.len(),
                        i <= n,
                        forall|j: int| 0 <= j < i ==> self.ready@[j] is None,
                    decreases n - i,
                {
                    if self.ready[i].is_some() {
                        return false;
                    }
                    i = i + 1;
                }
                true
            },
        }
    }
}

impl Awaitable for WaiterSlot {
    type Goal = ();

    /// Someone wanting the waiter waits while it is taken.
    open spec fn spec_must_wait(&self, goal: ()) -> bool {
        !self.free
    }

    fn must_wait(&self, goal: &()) -> (b: bool) {
        !self.free
    }

    /// A free waiter.
    fn settled(goal: &()) -> (s: WaiterSlot) {
        WaiterSlot { free: true }
    }
}

/// A queued outcome as a resolved future.
pub open spec fn as_future<T>(o: Option<Option<T>>) -> Option<Future<T>> {
    match o {
        Some(v) => Some(Future::Const(v)),
        None => None,
    }
}

/// Event: a future is added (`QueueView::enlisted`).
pub struct Enlist;

/// Event: a pending future resolves with the outcome (`QueueView::resolved`).
pub struct Enqueue<T>(pub Option<T>);

/// Event: the waiter takes the oldest outcome, as a resolved future
/// (`QueueView::next_resolved`).
pub struct TakeResolved;

/// Event: the waiter takes the oldest value (`QueueView::next_value`).
pub struct TakeValue;

/// Event: counting the futures outstanding.
pub struct CountOutstanding;

/// Event: taking the waiter (`WaiterSlot::spec_acquire`).
pub struct Acquire;

/// Event: handing the waiter back.
pub struct HandBack;

impl<T> Transition<Enlist> for StreamQueue<T> {
    type Out = ();

    open spec fn stepped(self, e: Enlist, next: Self, out: ()) -> bool {
        next@ == self@.enlisted()
    }

    fn step(&mut self, e: Enlist) {
        self.enlist()
    }
}

impl<T> Transition<Enqueue<T>> for StreamQueue<T> {
    type Out = ();

    open spec fn stepped(self, e: Enqueue<T>, next: Self, out: ()) -> bool {
        next@ == self@.resolved(e.0)
    }

    fn step(&mut self, e: Enqueue<T>) {
        self.resolve(e.0)
    }
}

impl<T> Transition<TakeResolved> for StreamQueue<T> {
    type Out = Option<Future<T>>;

    open spec fn stepped(self, e: TakeResolved, next: Self, out: Option<Future<T>>) -> bool {
        next@ == self@.next_resolved().0 && out == as_future(self@.next_resolved().1)
    }

    fn step(&mut self, e: TakeResolved) -> (out: Option<Future<T>>) {
        match self.next_resolved() {
            Some(v) => Some(Future::from_option(v)),
            None => None,
        }
    }
}

impl<T> Transition<TakeValue> for StreamQueue<T> {
    type Out = Option<T>;

    open spec fn stepped(self, e: TakeValue, next: Self, out: Option<T>) -> bool {
        (next@, out) == self@.next_value()
    }

    fn step(&mut self, e: TakeValue) -> (out: Option<T>) {
        self.next_value()
    }
}

impl<T> Transition<CountOutstanding> for StreamQueue<T> {
    type Out = usize;

    open spec fn stepped(self, e: CountOutstanding, next: Self, out: usize) -> bool {
        next == self && out == self@.capped_outstanding()
    }

    fn step(&mut self, e: CountOutstanding) -> (out: usize) {
        self.outstanding()
    }
}

impl Transition<Acquire> for WaiterSlot {
    type Out = bool;

    open spec fn stepped(self, e: Acquire, next: Self, out: bool) -> bool {
        (next, out) == self.spec_acquire()
    }

    fn step(&mut self, e: Acquire) -> (out: bool) {
        self.acquire()
    }
}

impl Transition<HandBack> for WaiterSlot {
    type Out = ();

    open spec fn stepped(self, e: HandBack, next: Self, out: ()) -> bool {
        next == (WaiterSlot { free: true })
    }

    fn step(&mut self, e: HandBack) {
        self.free = true;
    }
}

impl WaiterSlot {
    /// Applies `spec_acquire`.
    pub fn acquire(&mut self) -> (got: bool)
        ensures
            (*final(self), got) == old(self).spec_acquire(),
    {
        let got = self.free;
        self.free = false;
        got
    }
}

/// The state a stream and its clones share.
#[verifier::reject_recursive_types(T)]
struct StreamShared<T> {
    queue: CvMx<StreamQueue<T>>,
    waiter: CvMx<WaiterSlot>,
}

/// A stream of `Future`s, yielding their outcomes as they resolve. Clones share the
/// stream, so futures may be added from several threads.
#[verifier::reject_recursive_types(T)]
pub struct FutureStream<T: Send> {
    inner: Arc<StreamShared<T>>,
}

/// The single waiter of a stream: only the holder takes outcomes off it.
#[verifier::reject_recursive_types(T)]
pub struct FutureStreamWaiter<'a, T: Send + 'a> {
    fs: &'a FutureStream<T>,
}

/// Blocking iterator over the values of a stream's futures; futures that resolve
/// without a value are skipped.
#[verifier::reject_recursive_types(T)]
pub struct FutureStreamIter<'a, T: Send + 'a>(FutureStreamWaiter<'a, T>);

/// Queues the outcome `v` of one of the stream's futures and wakes the waiters.
fn deliver<T: Send>(shared: &StreamShared<T>, v: Option<T>) {
    update(&shared.queue, Enqueue(v));
    notify_all(&shared.queue);
}

impl<T: Send> FutureStream<T> {
    /// Whether the stream's cells were made holding an empty queue (nothing pending,
    /// nothing queued) and a free waiter.
    pub closed spec fn created_empty(self) -> bool {
        &&& self.inner.queue.initial()@ == (QueueView { pending: 0, ready: Seq::<Option<T>>::empty() })
        &&& self.inner.waiter.initial() == (WaiterSlot { free: true })
    }

    /// An empty stream.
    pub fn new() -> (s: FutureStream<T>)
        ensures
            s.created_empty(),
    {
        let shared = StreamShared {
            queue: CvMx::new(StreamQueue::new()),
            waiter: CvMx::new(WaiterSlot { free: true }),
        };
        FutureStream { inner: Arc::new(shared) }
    }

    /// Another handle to the same stream.
    pub fn clone(&self) -> (r: FutureStream<T>)
        ensures
            r == *self,
    {
        FutureStream { inner: share(&self.inner) }
    }

    /// Number of futures added and not yet taken off the stream, as counted in the state
    /// found in the queue.
    pub fn outstanding(&self) -> (n: usize)
        ensures
            exists|q: StreamQueue<T>| n == q@.capped_outstanding(),
    {
        update(&self.inner.queue, CountOutstanding)
    }

    /// The stream's waiter; blocks while another holder has it. It is handed back with
    /// `FutureStreamWaiter::release`.
    pub fn waiter(&self) -> (w: FutureStreamWaiter<'_, T>)
        ensures
            w.stream() == *self,
    {
        let _ = update_when(&self.inner.waiter, &(), Acquire);
        FutureStreamWaiter { fs: self }
    }

    /// The stream's waiter, or `None` if another holder has it: `Some` exactly when
    /// taking the waiter succeeds in the state found in its slot.
    pub fn try_waiter(&self) -> (r: Option<FutureStreamWaiter<'_, T>>)
        ensures
            exists|slot: WaiterSlot| (r is Some) == slot.spec_acquire().1,
            r matches Some(w) ==> w.stream() == *self,
    {
        let got = update(&self.inner.waiter, Acquire);
        self.waiter_if(got)
    }

    /// The waiter of this stream if `got`, else `None`.
    fn waiter_if(&self, got: bool) -> (r: Option<FutureStreamWaiter<'_, T>>)
        ensures
            (r is Some) == got,
            r matches Some(w) ==> w.stream() == *self,
    {
        if got {
            Some(FutureStreamWaiter { fs: self })
        } else {
            None
        }
    }

    /// Hands the waiter back, waking one thread that wants it.
    fn return_waiter(&self) {
        update(&self.inner.waiter, HandBack);
        notify_one(&self.inner.waiter);
    }

    /// A resolved future off the stream, if one is queued; does not wait for more.
    pub fn poll(&self) -> (r: Option<Future<T>>)
        ensures
            r matches Some(f) ==> f is Const,
            exists|q: StreamQueue<T>| r == as_future(q@.next_resolved().1),
    {
        let mut w = self.waiter();
        let r = w.poll();
        w.release();
        r
    }

    /// A resolved future off the stream, waiting while futures are outstanding but none
    /// has resolved; `None` once no future is outstanding.
    pub fn wait(&self) -> (r: Option<Future<T>>)
        ensures
            r matches Some(f) ==> f is Const,
            exists|q: StreamQueue<T>| !q@.must_wait(StreamGoal::Resolved) && r == as_future(q@.next_resolved().1),
    {
        let mut w = self.waiter();
        let r = w.wait();
        w.release();
        r
    }

    /// The values of the stream's futures as they resolve, skipping those without one.
    /// The iterator holds the stream's waiter until `FutureStreamIter::release`.
    pub fn iter(&self) -> (it: FutureStreamIter<'_, T>)
        ensures
            it.waiter().stream() == *self,
    {
        self.waiter().into_iter()
    }
}

impl<T: Send + 'static> FutureStream<T> {
    /// Adds `fut` to the stream.
    pub fn add(&self, fut: Future<T>) {
        update(&self.inner.queue, Enlist);
        let shared = share(&self.inner);
        fut.callback_unit(move |v: Option<T>| deliver(&*shared, v));
    }

    /// A stream of all the futures in `futures`.
    pub fn from_iter(futures: Vec<Future<T>>) -> FutureStream<T> {
        let stream = FutureStream::new();
        let mut rest = crate::util::reversed(futures);
        while rest.len() > 0
            decreases rest.len(),
        {
            let fut = rest.pop().unwrap();
            stream.add(fut);
        }
        stream
    }
}

impl<'a, T: Send + 'a> FutureStreamWaiter<'a, T> {
    /// The stream this waiter takes outcomes from.
    pub closed spec fn stream(self) -> FutureStream<T> {
        *self.fs
    }

    /// The oldest resolved future, waiting while futures are outstanding but none has
    /// resolved; `None` once no future is outstanding.
    pub fn wait(&mut self) -> (r: Option<Future<T>>)
        ensures
            r matches Some(f) ==> f is Const,
            exists|q: StreamQueue<T>| !q@.must_wait(StreamGoal::Resolved) && r == as_future(q@.next_resolved().1),
    {
        update_when(&self.fs.inner.queue, &StreamGoal::Resolved, TakeResolved)
    }

    /// The oldest resolved future, if one is queued; does not wait.
    pub fn poll(&mut self) -> (r: Option<Future<T>>)
        ensures
            r matches Some(f) ==> f is Const,
            exists|q: StreamQueue<T>| r == as_future(q@.next_resolved().1),
    {
        update(&self.fs.inner.queue, TakeResolved)
    }

    /// The oldest value, skipping futures resolved without one, waiting while futures are
    /// outstanding but no value is queued; `None` once no future is outstanding.
    pub fn wait_value(&mut self) -> (r: Option<T>)
        ensures
            exists|q: StreamQueue<T>| !q@.must_wait(StreamGoal::Value) && r == q@.next_value().1,
    {
        update_when(&self.fs.inner.queue, &StreamGoal::Value, TakeValue)
    }

    /// The oldest queued value, skipping futures resolved without one; does not wait.
    pub fn poll_value(&mut self) -> (r: Option<T>)
        ensures
            exists|q: StreamQueue<T>| r == q@.next_value().1,
    {
        update(&self.fs.inner.queue, TakeValue)
    }

    /// Up to `limit` values, in the order their futures resolved, waiting for each;
    /// stops early once no future is outstanding.
    pub fn take_values(&mut self, limit: usize) -> (r: Vec<T>)
        ensures
            r@.len() <= limit,
    {
        let mut out: Vec<T> = Vec::new();
        let mut i: usize = 0;
        while i < limit
            invariant
                i <= limit,
                out@.len() == i,
            decreases limit - i,
        {
            match self.wait_value() {
                Some(v) => out.push(v),
                None => return out,
            }
            i = i + 1;
        }
        out
    }

    /// Hands the waiter back to the stream.
    pub fn release(self) {
        self.fs.return_waiter()
    }

    /// A blocking iterator over the values.
    pub fn into_iter(self) -> (it: FutureStreamIter<'a, T>)
        ensures
            it.waiter() == self,
    {
        FutureStreamIter(self)
    }
}

impl<'a, T: Send + 'a> FutureStreamIter<'a, T> {
    /// The waiter the iterator holds.
    pub closed spec fn waiter(self) -> FutureStreamWaiter<'a, T> {
        self.0
    }

    /// The next value, skipping futures resolved without one; `None` once no future is
    /// outstanding.
    pub fn next(&mut self) -> (r: Option<T>)
        ensures
            exists|q: StreamQueue<T>| !q@.must_wait(StreamGoal::Value) && r == q@.next_value().1,
    {
        self.0.wait_value()
    }

    /// Hands the waiter back to the stream.
    pub fn release(self) {
        self.0.release()
    }
}

} // verus!

verus! {

/// Every future added to a stream is accounted for until it is taken off: adding one
/// counts one more outstanding, its resolving moves it from pending to queued without
/// changing the count, and taking its outcome counts one less.
pub proof fn law_stream_conservation<T>(q: QueueView<T>, v: Option<T>)
    ensures
        q.pending < usize::MAX ==> q.enlisted().outstanding() == q.outstanding() + 1,
        q.pending > 0 ==> q.resolved(v).outstanding() == q.outstanding(),
        q.ready.len() > 0 ==> q.next_resolved().0.outstanding() + 1 == q.outstanding(),
{
}

/// Outcomes come off a stream in the order in which their futures resolved.
pub proof fn law_stream_fifo<T>(q: QueueView<T>, v: Option<T>, w: Option<T>)
    requires
        q.ready.len() == 0,
    ensures
        q.resolved(v).resolved(w).next_resolved().1 == Some(v),
        q.resolved(v).resolved(w).next_resolved().0.next_resolved().1 == Some(w),
{
    let q2 = q.resolved(v).resolved(w);
    assert(q2.ready =~= seq![v, w]);
    assert(q2.next_resolved().0.ready =~= seq![w]);
}

/// A wait on a stream ends with nothing only when nothing is outstanding: once the
/// waiter no longer has to wait, it finds an outcome (a value, when it waits for one)
/// unless no future is pending and none is queued.
pub proof fn law_stream_wait_ends_with_outcome<T>(q: QueueView<T>)
    ensures
        !q.must_wait(StreamGoal::Resolved) ==> (q.next_resolved().1 is None <==> q.outstanding() == 0),
        !q.must_wait(StreamGoal::Value) ==> (q.next_value().1 is None <==> (q.pending == 0 && !has_value(q.ready))),
{
    lemma_first_value_at(q.ready);
}

/// Taking values skips exactly the futures that resolved without one: the value taken
/// is the first queued one, and nothing queued before it had a value.
pub proof fn law_stream_value_skips_empty<T>(q: QueueView<T>)
    ensures
        q.next_value().1 matches Some(x) ==> exists|k: int|
            0 <= k < q.ready.len() && q.ready[k] == Some(x)
            && (forall|i: int| 0 <= i < k ==> q.ready[i] is None)
            && q.next_value().0.ready == q.ready.skip(k + 1),
{
    lemma_first_value_at(q.ready);
    let k = first_value_at(q.ready);
    if k < q.ready.len() {
        assert(q.ready[k] is Some);
    }
}

impl WaiterSlot {
    /// Taking the waiter: granted when it is free, and taken afterwards either way.
    pub open spec fn spec_acquire(self) -> (WaiterSlot, bool) {
        (WaiterSlot { free: false }, self.free)
    }
}

/// A stream has a single waiter: once it is taken, asking again is refused until it is
/// handed back.
pub proof fn law_single_waiter(s: WaiterSlot)
    ensures
        s.spec_acquire().0.spec_acquire().1 == false,
        (WaiterSlot { free: true }).spec_acquire().1 == true,
{
}

/// A wait for a value ends with nothing only when nothing more can come: once a value
/// waiter no longer has to wait, it finds a value whenever some future is still pending or
/// a value is queued, and that value is the oldest queued one. (A waiter that stopped as
/// soon as any outcome, with or without a value, was queued could find nothing while
/// futures are still pending.)
pub proof fn law_value_wait_ends_with_value_or_exhaustion<T>(q: QueueView<T>)
    requires
        !q.must_wait(StreamGoal::Value),
    ensures
        q.pending > 0 ==> q.next_value().1 is Some,
        has_value(q.ready) ==> q.next_value().1 is Some,
        q.next_value().1 is None ==> q.pending == 0 && !has_value(q.ready),
        q.next_value().1 matches Some(x) ==> q.ready[first_value_at(q.ready)] == Some(x),
{
    lemma_first_value_at(q.ready);
}

/// A wait for a resolved future ends with nothing only when no future is outstanding.
pub proof fn law_resolved_wait_ends_with_future_or_exhaustion<T>(q: QueueView<T>)
    requires
        !q.must_wait(StreamGoal::Resolved),
    ensures
        as_future(q.next_resolved().1) is None <==> q.outstanding() == 0,
        as_future(q.next_resolved().1) matches Some(f) ==> f == Future::Const(q.ready[0]),
{
}

} // verus!
