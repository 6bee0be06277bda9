//! Blocking shared cells: a `Mutex` paired with the `Condvar` that signals changes to it.
//!
//! Everything that touches `std::sync` goes through the small trusted functions of this
//! module. A cell is only ever changed by `update` and `update_when`, which lock it, apply
//! one verified `Transition` to whatever state other threads left there, and unlock
//! before returning.
use vstd::prelude::*;

verus! {

#[verifier::external_type_specification]
#[verifier::external_body]
#[verifier::reject_recursive_types(T)]
pub struct ExMutex<T: ?Sized>(std::sync::Mutex<T>);

#[verifier::external_type_specification]
#[verifier::external_body]
#[verifier::reject_recursive_types(T)]
pub struct ExMutexGuard<'a, T: ?Sized + 'a>(std::sync::MutexGuard<'a, T>);

#[verifier::external_type_specification]
#[verifier::external_body]
pub struct ExCondvar(std::sync::Condvar);

/// A state that a thread can block on until it reaches some goal.
pub trait Awaitable: Sized {
    type Goal;

    /// Whether a thread waiting for `goal` has to keep waiting in this state.
    spec fn spec_must_wait(&self, goal: Self::Goal) -> bool;

    /// Computes `spec_must_wait`.
    fn must_wait(&self, goal: &Self::Goal) -> (b: bool)
        ensures
            b == self.spec_must_wait(*goal),
    ;

    /// A fresh state in which nobody waiting for `goal` has to wait: one in which nothing
    /// more will happen.
    fn settled(goal: &Self::Goal) -> (s: Self)
        ensures
            !s.spec_must_wait(*goal),
    ;
}

/// A change of state in answer to an event of type `E`, with an outcome for the thread
/// that made it. Implementations only compute; none of them takes a lock.
pub trait Transition<E>: Sized {
    type Out;

    /// Whether `next` and `out` are what the event `e` makes of the state `self`.
    spec fn stepped(self, e: E, next: Self, out: Self::Out) -> bool;

    /// Applies the event to the state.
    fn step(&mut self, e: E) -> (out: Self::Out)
        ensures
            old(self).stepped(e, *final(self), out),
    ;
}

/// `std::sync::Mutex::new`: a fresh, unlocked mutex holding `v`. What it holds is not
/// stated; the contents of a shared cell are only ever read through `update` and
/// `update_when`, which take whatever they find there.
#[verifier::external_body]
pub(crate) fn new_mutex<T>(v: T) -> std::sync::Mutex<T> {
    std::sync::Mutex::new(v)
}

/// `std::sync::Condvar::new`: a fresh condition variable.
#[verifier::external_body]
pub(crate) fn new_condvar() -> std::sync::Condvar {
    std::sync::Condvar::new()
}

/// A cell held locked by the calling thread: the guard of its mutex, kept together with
/// the cell so that a wait always uses the cell's own condition variable.
#[verifier::reject_recursive_types(S)]
pub struct Locked<'a, S> {
    cell: &'a CvMx<S>,
    guard: std::sync::MutexGuard<'a, S>,
}

impl<'a, S> Locked<'a, S> {
    /// The cell that is locked.
    pub closed spec fn cell(self) -> CvMx<S> {
        *self.cell
    }
}

/// `std::sync::Mutex::lock` on the cell's mutex: blocks until the calling thread holds
/// it. A mutex poisoned by a panicking thread is taken over as it stands. What the cell
/// holds is not stated: other threads may have changed it. (Locking a mutex that the same
/// thread already holds does not return; in this crate every lock is taken in `update` or
/// `update_when` and given up before they return, and no transition takes a lock.)
#[verifier::external_body]
pub(crate) fn lock<'a, S>(cell: &'a CvMx<S>) -> (l: Locked<'a, S>)
    ensures
        l.cell() == *cell,
{
    let guard = match cell.mx.lock() {
        Ok(g) => g,
        Err(poisoned) => poisoned.into_inner(),
    };
    Locked { cell, guard }
}

/// `DerefMut::deref_mut` of the guard: the contents of the locked cell, for as long as
/// it is held. What they are is not stated (see `lock`).
#[verifier::external_body]
pub(crate) fn locked<'a, 'b, S>(l: &'b mut Locked<'a, S>) -> &'b mut S {
    std::ops::DerefMut::deref_mut(&mut l.guard)
}

/// `std::sync::Condvar::wait_while` on the cell's own condition variable: releases the
/// lock and blocks until the contents no longer have to wait for `goal` (as the verified
/// `Awaitable::must_wait` decides), then returns with the lock held again. That the goal
/// is reached is not stated, as nothing is said of the contents (see `lock`).
#[verifier::external_body]
pub(crate) fn wait_until<'a, S: Awaitable>(l: Locked<'a, S>, goal: &S::Goal) -> (r: Locked<'a, S>)
    ensures
        r.cell() == l.cell(),
{
    let Locked { cell, guard } = l;
    let guard = match cell.cv.wait_while(guard, |s| s.must_wait(goal)) {
        Ok(g) => g,
        Err(poisoned) => poisoned.into_inner(),
    };
    Locked { cell, guard }
}

/// Locks `cell`, applies the event `e` to the state found there, and unlocks. The state
/// found is whatever other threads left: the outcome is what the step makes of some state.
pub(crate) fn update<S: Transition<E>, E>(cell: &CvMx<S>, e: E) -> (out: S::Out)
    ensures
        exists|s: S, next: S| s.stepped(e, next, out),
{
    let mut l = lock(cell);
    let s = locked(&mut l);
    let ghost before = *s;
    let out = s.step(e);
    proof {
        let next = *s;
        assert(before.stepped(e, next, out));
    }
    out
}

/// As `update`, but first waits on the cell's condition variable until the state no
/// longer has to wait for `goal`: the outcome is what the step makes of a state in which
/// the wait is over.
///
/// `Condvar::wait_while` only returns once `must_wait` is false, so the state found after
/// the wait is checked and is always settled. Were it not, the cell would be left alone
/// and the step applied to `Awaitable::settled`, a state in which nothing more happens.
pub(crate) fn update_when<S: Transition<E> + Awaitable, E>(cell: &CvMx<S>, goal: &S::Goal, e: E) -> (out: S::Out)
    ensures
        exists|s: S, next: S| s.stepped(e, next, out) && !s.spec_must_wait(*goal),
{
    let l = lock(cell);
    let mut l = wait_until(l, goal);
    let s = locked(&mut l);
    if !s.must_wait(goal) {
        let ghost before = *s;
        let out = s.step(e);
        proof {
            let next = *s;
            assert(before.stepped(e, next, out) && !before.spec_must_wait(*goal));
        }
        out
    } else {
        let mut fresh = S::settled(goal);
        let ghost before = fresh;
        let out = fresh.step(e);
        proof {
            let next = fresh;
            assert(before.stepped(e, next, out) && !before.spec_must_wait(*goal));
        }
        out
    }
}

/// `std::sync::Condvar::notify_one` on the cell's condition variable: wakes one thread
/// waiting on the cell, if any.
#[verifier::external_body]
pub(crate) fn notify_one<S>(cell: &CvMx<S>) {
    cell.cv.notify_one()
}

/// `std::sync::Condvar::notify_all` on the cell's condition variable: wakes every thread
/// waiting on the cell.
#[verifier::external_body]
pub(crate) fn notify_all<S>(cell: &CvMx<S>) {
    cell.cv.notify_all()
}

/// `Arc::clone`: another pointer to the same allocation, so to Verus the same value.
#[verifier::external_body]
pub(crate) fn share<T>(a: &std::sync::Arc<T>) -> (r: std::sync::Arc<T>)
    ensures
        r == *a,
{
    std::sync::Arc::clone(a)
}

/// Puts `new` into `*s` and returns what was there.
pub(crate) fn swap_out<T>(s: &mut T, new: T) -> (r: T)
    ensures
        r == *old(s),
        *final(s) == new,
{
    let mut r = new;
    std::mem::swap(s, &mut r);
    r
}

/// A condition variable and the mutex whose changes it signals.
#[verifier::reject_recursive_types(T)]
pub struct CvMx<T> {
    pub cv: std::sync::Condvar,
    pub mx: std::sync::Mutex<T>,
    /// What the cell held when it was made.
    made_with: Ghost<T>,
}

impl<T> CvMx<T> {
    /// What the cell held when it was made.
    pub closed spec fn initial(self) -> T {
        self.made_with@
    }

    /// A fresh cell holding `v`.
    pub fn new(v: T) -> (c: CvMx<T>)
        ensures
            c.initial() == v,
    {
        let ghost g = v;
        CvMx { cv: new_condvar(), mx: new_mutex(v), made_with: Ghost(g) }
    }
}

} // verus!
