//! Sleeping until another thread calls.
use vstd::prelude::*;

verus! {

/// The call that wakes a sleeping thread.
///
/// The thread that owns it sleeps until the call has come. A call that comes before the thread
/// has fallen asleep is kept, and the thread does not fall asleep.
pub struct SysWait {
    pub woken: bool,
}

impl SysWait {
    /// Returns a wait to which nobody has called yet.
    pub fn new() -> (wait: SysWait)
        ensures
            !wait.woken,
    {
        SysWait { woken: false }
    }

    /// Calls the thread that sleeps, or that is about to.
    pub fn wake(&mut self)
        ensures
            final(self).woken,
    {
        self.woken = true;
    }
}

} // verus!
