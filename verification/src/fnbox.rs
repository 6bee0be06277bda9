//! Boxed one-shot callbacks that can be stored in a shared cell and run from another thread.
use vstd::prelude::*;

verus! {

/// A callback taking one parameter, callable once through a box.
pub trait FnBox<P>: Send {
    fn call_box(self: Box<Self>, param: P);
}

/// A one-shot closure that accepts every parameter, ready to be boxed as a `FnBox`.
pub struct Thunk<F: FnOnce(P), P> {
    f: F,
    param: std::marker::PhantomData<P>,
}

impl<F: FnOnce(P), P> Thunk<F, P> {
    #[verifier::type_invariant]
    spec fn accepts_every_param(self) -> bool {
        forall|p: P| call_requires(self.f, (p,))
    }

    /// The closure the thunk runs.
    pub closed spec fn func(self) -> F {
        self.f
    }

    /// Wraps `f`, which must accept every parameter.
    pub fn new(f: F) -> (t: Self)
        requires
            forall|p: P| call_requires(f, (p,)),
        ensures
            t.func() == f,
    {
        Thunk { f, param: std::marker::PhantomData }
    }
}

impl<F: FnOnce(P) + Send, P: Send> FnBox<P> for Thunk<F, P> {
    fn call_box(self: Box<Self>, param: P) {
        proof {
            use_type_invariant(&*self);
        }
        let thunk = *self;
        let Thunk { f, param: _ } = thunk;
        f(param)
    }
}

} // verus!
