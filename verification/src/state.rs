//! The state of a signal.
use vstd::prelude::*;

verus! {

/// The signal is finished: its data has been handed over.
pub const UNLOCKED: u8 = 0;

/// The signal is finished without a hand-over: the other side of the channel is gone.
pub const TERMINATED: u8 = 1;

/// The signal is pending, and its waiter is awake.
pub const LOCKED: u8 = 2;

/// The signal is pending, and its waiter sleeps until it is woken.
pub const LOCKED_STARVATION: u8 = 3;

/// The state of a signal, as its waiter and the other side of the channel see it.
///
/// States below [`LOCKED`] are final, the others are pending. Each method is one indivisible
/// access: a state that is shared between threads is accessed by one of them at a time, and an
/// access sees everything that came before the ones it follows.
pub struct State {
    pub v: u8,
}

impl State {
    /// Returns the state of a signal that nobody has answered yet.
    pub fn locked() -> (state: State)
        ensures
            state.v == LOCKED,
    {
        State { v: LOCKED }
    }

    /// Reads the state while polling it.
    pub fn relaxed(&self) -> (v: u8)
        ensures
            v == self.v,
    {
        self.v
    }

    /// Reads the state to settle how the signal has ended.
    pub fn acquire(&self) -> (v: u8)
        ensures
            v == self.v,
    {
        self.v
    }

    /// Replaces the state, whatever it is.
    pub fn force(&mut self, v: u8)
        ensures
            final(self).v == v,
    {
        self.v = v;
    }

    /// Replaces the state if the waiter is awake, and tells whether it did.
    pub fn try_change(&mut self, v: u8) -> (changed: bool)
        ensures
            changed == (old(self).v == LOCKED),
            final(self).v == (if changed { v } else { old(self).v }),
    {
        if self.v == LOCKED {
            self.v = v;
            true
        } else {
            false
        }
    }

    /// Announces that the waiter goes to sleep, unless the signal is finished. Tells whether the
    /// waiter is to sleep.
    pub fn upgrade_lock(&mut self) -> (asleep: bool)
        ensures
            asleep == (old(self).v == LOCKED || old(self).v == LOCKED_STARVATION),
            final(self).v == (if asleep { LOCKED_STARVATION } else { old(self).v }),
    {
        if self.v == LOCKED {
            self.v = LOCKED_STARVATION;
            true
        } else {
            self.v == LOCKED_STARVATION
        }
    }
}

} // verus!
