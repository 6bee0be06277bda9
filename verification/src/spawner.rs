//! Where blocking work is sent to run.
use vstd::prelude::*;

verus! {

/// A way of running a function on some other thread (a fresh one, or one from a pool).
pub trait Spawner {
    /// Arrange for `f` to be run.
    fn spawn<F: FnOnce() + Send + 'static>(&self, f: F)
        requires
            call_requires(f, ()),
    ;
}

} // verus!
