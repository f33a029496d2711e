# kanal

The internals of a channel between threads and tasks, with contracts that Verus proves.

- `src/internal.rs`: the shared part of a channel, with its list of waiters and its reference
  counts, and the handles by which senders and receivers reach it.
- `src/signal.rs`: the signals by which a waiting sender or receiver is answered, and the steps of
  the three ways to wait on one.
- `src/memory.rs`, `src/mutex.rs`, `src/state.rs`, `src/pointer.rs`, `src/sync.rs`: the memory that
  is shared, its locks, and the parts of a signal.
- `src/waits.rs`: the model of a list of waiters.
- `src/wait_laws.rs`, `src/race_laws.rs`, `src/channel_laws.rs`: what holds across several
  operations, such as that no answer to a waiter is missed, that a signal is let go before its wait
  ends, and that a channel ends with its last handle.
- `src/outside.rs`: what is taken on trust from `std::task` and `branches`.
- `app/`: a heap that threads share, which sleeps, yields and wakes as the library asks.
