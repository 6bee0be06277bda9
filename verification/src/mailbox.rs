//! A one-shot mailbox: a `Post` may put one value into its `Mailbox`.
//!
//! The shared state is the value, if one has been posted and not yet taken, and whether
//! either side has gone (after which nothing more will arrive). Each operation is a
//! transition of `MailState`, applied under the cell's lock.
use std::sync::Arc;
use vstd::prelude::*;
use crate::sync::{notify_one, share, swap_out, update, update_when, Awaitable, CvMx, Transition};

verus! {

/// Shared state of a `Mailbox`/`Post` pair.
pub struct MailState<T> {
    /// The value posted and not yet taken.
    pub v: Option<T>,
    /// Whether either side has gone: nothing more can arrive.
    pub dead: bool,
}

impl<T> MailState<T> {
    /// Taking from the mailbox without waiting: the value is taken if there is one; with
    /// none, `Err` once nothing more can arrive, `Ok(None)` before.
    pub open spec fn spec_take(self) -> (MailState<T>, Result<Option<T>, ()>) {
        if self.v is None && self.dead {
            (self, Err(()))
        } else {
            (MailState { v: None, dead: self.dead }, Ok(self.v))
        }
    }

    /// The mailbox, once its wait is over, takes the value (`Err` if there is none) and
    /// goes away.
    pub open spec fn spec_collect(self) -> (MailState<T>, Result<T, ()>) {
        (MailState { v: None, dead: true }, match self.v {
            Some(x) => Ok(x),
            None => Err(()),
        })
    }

    /// Posting `val`: refused (and handed back) once the mailbox has gone; otherwise
    /// stored. Either way the post is used up, so nothing more can arrive.
    pub open spec fn spec_post(self, val: T) -> (MailState<T>, Result<(), T>) {
        if self.dead {
            (self, Err(val))
        } else {
            (MailState { v: Some(val), dead: true }, Ok(()))
        }
    }

    /// One side goes away.
    pub open spec fn spec_close(self) -> MailState<T> {
        MailState { v: self.v, dead: true }
    }

    /// A fresh mailbox: empty, both sides present.
    pub open spec fn new_spec() -> MailState<T> {
        MailState { v: None, dead: false }
    }

    /// A fresh mailbox: empty, both sides present.
    pub fn new() -> (s: MailState<T>)
        ensures
            s == MailState::<T>::new_spec(),
    {
        MailState { v: None, dead: false }
    }

    /// Applies `spec_take`.
    pub fn take(self) -> (r: (MailState<T>, Result<Option<T>, ()>))
        ensures
            r == self.spec_take(),
    {
        if self.v.is_none() && self.dead {
            (self, Err(()))
        } else {
            let dead = self.dead;
            (MailState { v: None, dead }, Ok(self.v))
        }
    }

    /// Applies `spec_collect`.
    pub fn collect(self) -> (r: (MailState<T>, Result<T, ()>))
        ensures
            r == self.spec_collect(),
    {
        let got = match self.v {
            Some(x) => Ok(x),
            None => Err(()),
        };
        (MailState { v: None, dead: true }, got)
    }

    /// Applies `spec_post`.
    pub fn post(self, val: T) -> (r: (MailState<T>, Result<(), T>))
        ensures
            r == self.spec_post(val),
    {
        if self.dead {
            (self, Err(val))
        } else {
            (MailState { v: Some(val), dead: true }, Ok(()))
        }
    }

    /// Applies `spec_close`.
    pub fn close(self) -> (s: MailState<T>)
        ensures
            s == self.spec_close(),
    {
        MailState { v: self.v, dead: true }
    }

    /// Whether nothing more can arrive.
    pub fn isdead(&self) -> (b: bool)
        ensures
            b == self.dead,
    {
        self.dead
    }
}

impl<T> Awaitable for MailState<T> {
    type Goal = ();

    /// A waiting mailbox waits while it is empty and something may still arrive.
    open spec fn spec_must_wait(&self, goal: ()) -> bool {
        self.v is None && !self.dead
    }

    fn must_wait(&self, goal: &()) -> (b: bool) {
        self.v.is_none() && !self.dead
    }

    /// An empty mailbox to which nothing more can arrive.
    fn settled(goal: &()) -> (s: MailState<T>) {
        MailState { v: None, dead: true }
    }
}

/// Event: the mailbox takes without waiting (`MailState::spec_take`).
pub struct TakeMail;

/// Event: the mailbox, done waiting, takes the value and goes (`MailState::spec_collect`).
pub struct CollectMail;

/// Event: the post puts a value (`MailState::spec_post`).
pub struct PostMail<T>(pub T);

/// Event: one side goes away (`MailState::spec_close`).
pub struct CloseMail;

/// Event: the post asks whether nothing more can arrive.
pub struct AskDead;

impl<T> Transition<TakeMail> for MailState<T> {
    type Out = Result<Option<T>, ()>;

    open spec fn stepped(self, e: TakeMail, next: Self, out: Result<Option<T>, ()>) -> bool {
        (next, out) == self.spec_take()
    }

    fn step(&mut self, e: TakeMail) -> (out: Result<Option<T>, ()>) {
        let (next, out) = swap_out(self, MailState::new()).take();
        *self = next;
        out
    }
}

impl<T> Transition<CollectMail> for MailState<T> {
    type Out = Result<T, ()>;

    open spec fn stepped(self, e: CollectMail, next: Self, out: Result<T, ()>) -> bool {
        (next, out) == self.spec_collect()
    }

    fn step(&mut self, e: CollectMail) -> (out: Result<T, ()>) {
        let (next, out) = swap_out(self, MailState::new()).collect();
        *self = next;
        out
    }
}

impl<T> Transition<PostMail<T>> for MailState<T> {
    type Out = Result<(), T>;

    open spec fn stepped(self, e: PostMail<T>, next: Self, out: Result<(), T>) -> bool {
        (next, out) == self.spec_post(e.0)
    }

    fn step(&mut self, e: PostMail<T>) -> (out: Result<(), T>) {
        let (next, out) = swap_out(self, MailState::new()).post(e.0);
        *self = next;
        out
    }
}

impl<T> Transition<CloseMail> for MailState<T> {
    type Out = ();

    open spec fn stepped(self, e: CloseMail, next: Self, out: ()) -> bool {
        next == self.spec_close()
    }

    fn step(&mut self, e: CloseMail) {
        let next = swap_out(self, MailState::new()).close();
        *self = next;
    }
}

impl<T> Transition<AskDead> for MailState<T> {
    type Out = bool;

    open spec fn stepped(self, e: AskDead, next: Self, out: bool) -> bool {
        next == self && out == self.dead
    }

    fn step(&mut self, e: AskDead) -> (out: bool) {
        self.isdead()
    }
}

/// The receiving side.
#[verifier::reject_recursive_types(T)]
pub struct Mailbox<T>(Arc<CvMx<MailState<T>>>);

/// The sending side.
#[verifier::reject_recursive_types(T)]
pub struct Post<T>(Arc<CvMx<MailState<T>>>);

impl<T> Mailbox<T> {
    /// The cell this mailbox reads.
    pub closed spec fn cell(self) -> Arc<CvMx<MailState<T>>> {
        self.0
    }

    /// Takes the value, if it has one; it is only returned once. `Err` once there is no
    /// value and the post has gone. The result is what `MailState::spec_take` gives for
    /// the state found in the cell.
    pub fn take(&mut self) -> (r: Result<Option<T>, ()>)
        ensures
            exists|s: MailState<T>| r == s.spec_take().1,
    {
        update(&*self.0, TakeMail)
    }

    /// Blocks until a value arrives (`Ok`) or the post has gone without posting (`Err`).
    /// The result is what `MailState::spec_collect` gives for the state found once the wait
    /// is over.
    pub fn wait(self) -> (r: Result<T, ()>)
        ensures
            exists|s: MailState<T>| !s.spec_must_wait(()) && r == s.spec_collect().1,
    {
        update_when(&*self.0, &(), CollectMail)
    }

    /// Gives the mailbox up: a later post is refused.
    pub fn release(self) {
        update(&*self.0, CloseMail)
    }
}

impl<T> Post<T> {
    /// The cell this post writes.
    pub closed spec fn cell(self) -> Arc<CvMx<MailState<T>>> {
        self.0
    }

    /// Posts `val` to the mailbox; if the mailbox has gone it is handed back in `Err`.
    /// The result is what `MailState::spec_post` gives for the state found in the cell.
    pub fn post(self, val: T) -> (r: Result<(), T>)
        ensures
            r is Err ==> r == Err::<(), T>(val),
            exists|s: MailState<T>| r == s.spec_post(val).1,
    {
        let res = update(&*self.0, PostMail(val));
        notify_one(&*self.0);
        res
    }

    /// Whether the mailbox has gone (or the value was already posted): a `post` now
    /// would be refused.
    pub fn isdead(&self) -> (b: bool)
        ensures
            exists|s: MailState<T>| b == s.dead,
    {
        update(&*self.0, AskDead)
    }

    /// Gives the post up without posting: the mailbox then reports that nothing will come.
    pub fn release(self) {
        update(&*self.0, CloseMail);
        notify_one(&*self.0);
    }
}

/// A `Mailbox`/`Post` pair sharing a fresh cell.
pub fn mailbox<T>() -> (r: (Mailbox<T>, Post<T>))
    ensures
        r.0.cell() == r.1.cell(),
        r.0.cell().initial() == MailState::<T>::new_spec(),
{
    let inner = Arc::new(CvMx::new(MailState::new()));
    let mail = Mailbox(share(&inner));
    let post = Post(inner);
    (mail, post)
}

} // verus!

verus! {

/// A posted value is delivered once: before the post the mailbox is empty, the first
/// take after it gets the value, and every take after that reports that nothing more
/// will come.
pub proof fn law_mail_delivered_once<T>(v: T)
    ensures
        MailState::<T>::new_spec().spec_take() == (MailState::<T>::new_spec(), Ok::<Option<T>, ()>(None)),
        MailState::<T>::new_spec().spec_post(v).1 == Ok::<(), T>(()),
        MailState::<T>::new_spec().spec_post(v).0.spec_take().1 == Ok::<Option<T>, ()>(Some(v)),
        MailState::<T>::new_spec().spec_post(v).0.spec_take().0.spec_take().1 == Err::<Option<T>, ()>(()),
{
}

/// A wait after a post gets the posted value.
pub proof fn law_wait_gets_post<T>(v: T)
    ensures
        MailState::<T>::new_spec().spec_post(v).0.spec_collect().1 == Ok::<T, ()>(v),
{
}

/// Once the mailbox has gone, a post is refused and the value handed back untouched.
pub proof fn law_post_to_gone_mailbox<T>(v: T)
    ensures
        MailState::<T>::new_spec().spec_close().spec_post(v).1 == Err::<(), T>(v),
{
}

/// A post given up without posting: taking and waiting both report that nothing will come.
pub proof fn law_abandoned_post<T>()
    ensures
        MailState::<T>::new_spec().spec_close().spec_take().1 == Err::<Option<T>, ()>(()),
        MailState::<T>::new_spec().spec_close().spec_collect().1 == Err::<T, ()>(()),
{
}

/// A wait only ends in a state where its outcome is settled: with a value it gets the
/// value, and without one nothing more can arrive.
pub proof fn law_wait_ends_settled<T>(s: MailState<T>)
    requires
        !(s.v is None && !s.dead),
    ensures
        s.spec_collect().1 is Err ==> s.dead,
        s.v matches Some(x) ==> s.spec_collect().1 == Ok::<T, ()>(x),
{
}

/// A wait on a mailbox reports `Err` exactly when the post has gone without posting: once
/// the wait is over, it gets the value if one was posted, and `Err` only when there is no
/// value and nothing more can arrive.
pub proof fn law_mail_wait_err_only_when_post_gone<T>(s: MailState<T>)
    requires
        !s.spec_must_wait(()),
    ensures
        s.spec_collect().1 is Err <==> (s.v is None && s.dead),
        s.v matches Some(x) ==> s.spec_collect().1 == Ok::<T, ()>(x),
{
}

} // verus!
