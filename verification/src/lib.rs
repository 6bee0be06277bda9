//! Futures and promises: a `Future` is a read-only placeholder for a value that may not be
//! known yet, and a `Promise` is the write-once box that determines it.
//!
//! A `FutureStream` waits on many futures at once, `any` and `all_with` act on groups of
//! them, and a `Mailbox` is a one-shot channel built the same way.
pub mod sync;
pub mod fnbox;
pub mod inner;
pub mod spawner;
pub mod future;
pub mod futurestream;
pub mod mailbox;
pub mod util;

pub use sync::CvMx;
pub use fnbox::{FnBox, Thunk};
pub use inner::Inner;
pub use spawner::Spawner;
pub use future::{future_promise, Future, FutureIter, Pollresult, Promise};
pub use futurestream::{FutureStream, FutureStreamIter, FutureStreamWaiter};
pub use mailbox::{mailbox, Mailbox, Post};
pub use util::{all_with, any};
