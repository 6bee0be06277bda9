# promising_future

Futures and promises, verified with Verus. A `Future` is a read-only placeholder for a
value that may not be known yet; its `Promise` is the write-once box that determines it.
A `FutureStream` waits on many futures and yields their outcomes as they resolve, `any`
and `all_with` act on groups of futures, and a `Mailbox`/`Post` pair is a one-shot
channel built the same way.

## Layout

- `src/inner.rs`: the cell a future shares with its promise (`Empty`, `Gone`, `Val`,
  `Callback`) and every transition of it, each with an exact contract, plus the laws of
  the protocol over these transitions (what a read gives back of a write, write-once
  completion, cancellation, callbacks getting the outcome in either order). The handles'
  contracts say that their results are what these transitions give for some state of the
  cell; which state another thread left there is not stated.
- `src/future.rs`: `Future`, `Promise`, `future_promise` and the chaining operations.
- `src/futurestream.rs`: the queue of outcomes behind a stream (`StreamQueue`, modelled by
  `QueueView`), its single waiter, and the stream handles; laws on counting, order and
  when a wait ends.
- `src/mailbox.rs`: the mailbox state (`MailState`), its handles and laws.
- `src/util.rs`: `any` and `all_with`.
- `src/fnbox.rs`: boxed one-shot callbacks (`FnBox`, `Thunk`).
- `src/spawner.rs`: the `Spawner` trait through which blocking work is sent elsewhere.
- `src/sync.rs`: the trusted functions around `std::sync::{Mutex, Condvar, Arc}`.
- `app/lib.rs`: `ThreadSpawner` (a new `std::thread` per job), `chain` and `all` that use
  it, guards that complete or give up handles when they go out of scope, and `describe`,
  a text form of a future.

## How the handles are used

Every handle is completed explicitly: a promise by `set` or `abandon` (completion without
a value), a future that is no longer wanted by `release`, a stream waiter and a
mailbox/post pair by `release`. Verus accepts a destructor only if it provably cannot
unwind, and completing a promise may run a user callback, so these steps are methods
rather than `Drop`; `app/` offers guards (`PromiseGuard`, `FutureGuard`, `WaiterGuard`,
`MailboxGuard`, `PostGuard`) that call them from `Drop`.

Whatever another thread left in a shared cell is unknown to the verifier: each operation
takes the state it finds under the lock and hands it to a transition whose contract says
exactly what happens for every state. Blocking waits end through `Condvar::wait_while`,
with the condition computed by verified code.
