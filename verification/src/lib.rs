//! The internals of a channel: the part that senders and receivers share, and the signals by
//! which those that wait are answered.
//!
//! A channel ([`internal::ChannelInternal`]) keeps a queue, a list of waiters and the counts of
//! its users, behind a lock; senders and receivers reach it through handles
//! ([`internal::Internal`]). Whoever has to wait puts a [`signal::Signal`] where the other side
//! finds it, and is answered through it: with a value, with the news that its value has been
//! taken, or with the news that the other side is gone.
//!
//! What is shared lives in an explicit memory ([`internal::Heap`]). Each function is one operation
//! on it. Operations of different threads follow one another; whoever shares a heap between
//! threads sees to that. What an operation asks to be done outside of the heap (to sleep, to wake
//! a task) it returns.
pub mod channel_laws;
pub mod internal;
pub mod memory;
pub mod mutex;
pub mod operation_laws;
pub mod outside;
pub mod pointer;
pub mod race_laws;
pub mod signal;
pub mod state;
pub mod sync;
pub mod wait_laws;
pub mod waits;
