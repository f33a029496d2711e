//! Signals: how a waiting sender or receiver is answered by the other side of a channel.
use crate::memory::Memory;
use crate::pointer::KanalPtr;
use crate::state::{State, LOCKED, LOCKED_STARVATION, TERMINATED, UNLOCKED};
use crate::sync::SysWait;
use std::marker::PhantomData;
use std::task::{Poll, Waker};
use vstd::prelude::*;

verus! {

/// How often [`Signal::wait`] yields before its thread goes to sleep.
pub const WAIT_YIELDS: u32 = 256;

/// How often [`Signal::async_blocking_wait`] yields before it sleeps.
pub const ASYNC_WAIT_YIELDS: u32 = 32;

/// How often [`Signal::wait_timeout`] yields before it looks at the clock.
pub const TIMEOUT_WAIT_YIELDS: u32 = 32;

/// The first sleep of [`Signal::async_blocking_wait`], in nanoseconds.
pub const FIRST_SLEEP: u64 = 1024;

/// The sleep up to which [`Signal::async_blocking_wait`] doubles its sleeps, in nanoseconds.
pub const LONGEST_SLEEP: u64 = 262144;

/// How the waiter of a signal is woken.
pub enum KanalWaker {
    /// An asynchronous waiter that has not been polled yet.
    Unregistered,
    /// A thread.
    Sync(SysWait),
    /// A task.
    Async(Waker),
}

/// What a waiter does before it takes its next step.
pub enum Pause {
    /// Nothing: the next step follows at once.
    Skip,
    /// It backs off for a moment of random length.
    Backoff,
    /// It gives way to the other threads.
    Yield,
    /// It sleeps for so many nanoseconds.
    Sleep(u64),
    /// It sleeps until its [`SysWait`] is woken.
    Park,
}

/// What one step of waiting came to.
pub enum Step<P> {
    /// The wait is over. Tells whether the data has been handed over.
    Done(bool),
    /// The wait goes on at `phase`, after `pause`.
    Next { pause: Pause, phase: P },
}

/// Where a waiter stands in [`Signal::wait`].
pub enum WaitPhase {
    /// It has yielded so many times.
    Polling(u32),
    /// It has yielded often enough, and is about to go to sleep.
    Locking,
    /// It has been told to sleep.
    Parked,
    /// The signal was finished when it wanted to go to sleep.
    Settled,
}

/// Where a waiter stands in [`Signal::async_blocking_wait`].
pub enum AsyncWaitPhase {
    /// It has yielded so many times.
    Polling(u32),
    /// Its last sleep was of so many nanoseconds.
    Sleeping(u64),
}

/// Where a waiter stands in [`Signal::wait_timeout`].
pub enum TimeoutPhase {
    /// It has yielded so many times, without a look at the clock.
    Polling(u32),
    /// It waits for its deadline.
    Timed,
}

/// The next access to a signal of the one that answers it.
pub enum AnswerPhase<T> {
    /// It hands a value over to a signal that receives.
    Send(T),
    /// It takes the value over from a signal that sends.
    Recv,
    /// It looks who waits. It tries to change the state for a thread that is awake, or clones the
    /// waker of a task.
    Notify,
    /// It changes the state for a thread that sleeps.
    Force,
    /// It calls the thread.
    Call,
    /// It changes the state for a task, of whose waker it has this clone.
    Store(Waker),
    /// There is none: it has let the signal go. It may have the waker of a task to wake.
    Finished(Option<Waker>),
}

/// How far the one that answers a signal has come.
pub struct Answering<T> {
    /// The final state to which it brings the signal.
    pub state: u8,
    /// The value that it has taken over.
    pub taken: Option<T>,
    pub phase: AnswerPhase<T>,
}

impl<T> Answering<T> {
    /// An answer that starts at `phase` and brings the signal to `state`.
    pub open spec fn begun(state: u8, phase: AnswerPhase<T>) -> Answering<T> {
        Answering { state, taken: None, phase }
    }

    /// How many accesses are left, at most.
    pub open spec fn rank(self) -> nat {
        match self.phase {
            AnswerPhase::Send(_) | AnswerPhase::Recv => 4,
            AnswerPhase::Notify => 3,
            AnswerPhase::Force => 2,
            AnswerPhase::Call | AnswerPhase::Store(_) => 1,
            AnswerPhase::Finished(_) => 0,
        }
    }
}

/// A signal: what a waiting sender or receiver shares with the other side of its channel.
///
/// The other side answers a signal once. It hands the data over through `ptr`, or terminates the
/// signal, and wakes the waiter.
pub struct Signal<T> {
    /// Where the signal lives, once it has been pinned.
    pub address: Option<usize>,
    pub state: State,
    pub ptr: KanalPtr<T>,
    pub waker: KanalWaker,
}

impl<T> Signal<T> {
    /// The signal has not been answered yet.
    pub open spec fn pending(self) -> bool {
        self.state.v >= LOCKED
    }

    /// The signal can be answered: it is pending, and its waiter can be woken.
    pub open spec fn answerable(self) -> bool {
        self.pending() && !(self.waker is Unregistered)
    }

    /// The signal has been answered with its data handed over.
    pub open spec fn unlocked(self) -> bool {
        self.state.v == UNLOCKED
    }

    /// The thread that waits has been called.
    pub open spec fn called(self) -> bool {
        self.waker matches KanalWaker::Sync(wait) && wait.woken
    }

    /// The signal once it has been brought to a final state and its waiter has been woken. A
    /// thread is called if it is not awake; a task leaves no trace in the signal.
    pub open spec fn woken(self, state: u8) -> Signal<T> {
        Signal {
            state: State { v: state },
            waker: match self.waker {
                KanalWaker::Sync(wait) => KanalWaker::Sync(
                    SysWait { woken: wait.woken || self.state.v != LOCKED },
                ),
                waker => waker,
            },
            ..self
        }
    }

    /// The signal with `slot` in its place.
    pub open spec fn holding(self, slot: Option<T>) -> Signal<T> {
        Signal { ptr: KanalPtr { slot }, ..self }
    }

    /// The waker to be woken when the signal is answered: a clone of that of the task that waits,
    /// and none for a thread.
    pub open spec fn wakes(self, waker: Option<Waker>) -> bool {
        match self.waker {
            KanalWaker::Async(task) => waker matches Some(clone) && cloned(task, clone),
            _ => waker is None,
        }
    }

    /// Returns a signal for an asynchronous waiter, with an empty place.
    pub fn new_async() -> (signal: Signal<T>)
        ensures
            signal == (Signal {
                address: None,
                state: State { v: LOCKED },
                ptr: KanalPtr { slot: None::<T> },
                waker: KanalWaker::Unregistered,
            }),
    {
        Signal {
            address: None,
            state: State::locked(),
            ptr: Default::default(),
            waker: KanalWaker::Unregistered,
        }
    }

    /// Returns a signal for an asynchronous waiter, with the given place.
    pub fn new_async_ptr(ptr: KanalPtr<T>) -> (signal: Signal<T>)
        ensures
            signal == (Signal {
                address: None,
                state: State { v: LOCKED },
                ptr,
                waker: KanalWaker::Unregistered,
            }),
    {
        Signal { address: None, state: State::locked(), ptr, waker: KanalWaker::Unregistered }
    }

    /// Returns a signal for a thread, with the given place.
    pub fn new_sync(ptr: KanalPtr<T>) -> (signal: Signal<T>)
        ensures
            signal == (Signal {
                address: None,
                state: State { v: LOCKED },
                ptr,
                waker: KanalWaker::Sync(SysWait { woken: false }),
            }),
    {
        Signal {
            address: None,
            state: State::locked(),
            ptr,
            waker: KanalWaker::Sync(SysWait::new()),
        }
    }

    /// Puts the signal into memory, where the other side of its channel finds it, and returns its
    /// address.
    pub fn pin(self, signals: &mut Memory<Signal<T>>) -> (addr: usize)
        ensures
            !old(signals)@.contains_key(addr),
            final(signals)@ == old(signals)@.insert(
                addr,
                (Signal { address: Some(addr), ..self }),
            ),
    {
        let addr = signals.place(self);
        signals.get_mut(addr).address = Some(addr);
        addr
    }

    /// Takes the signal at `addr` out of memory. It has no address any more.
    pub fn unpin(addr: usize, signals: &mut Memory<Signal<T>>) -> (signal: Signal<T>)
        requires
            old(signals)@.contains_key(addr),
        ensures
            signal == (Signal { address: None, ..old(signals)@[addr] }),
            final(signals)@ == old(signals)@.remove(addr),
    {
        let mut signal = signals.free(addr);
        signal.address = None;
        signal
    }

    /// Tells how the signal has ended, if it has.
    pub fn poll(&self) -> (poll: Poll<u8>)
        ensures
            poll == (if self.pending() { Poll::Pending } else { Poll::Ready(self.state.v) }),
            self.state.v >= LOCKED <==> poll is Pending,
            poll matches Poll::Ready(v) ==> v == self.state.v,
    {
        let v = self.state.relaxed();
        if v >= LOCKED {
            Poll::Pending
        } else {
            Poll::Ready(v)
        }
    }

    /// What [`Signal::async_blocking_wait`] comes to at `phase`.
    pub open spec fn async_blocking_wait_step(self, phase: AsyncWaitPhase) -> Step<AsyncWaitPhase> {
        if !self.pending() {
            Step::Done(self.unlocked())
        } else {
            match phase {
                AsyncWaitPhase::Polling(n) => if n < ASYNC_WAIT_YIELDS {
                    Step::Next {
                        pause: Pause::Yield,
                        phase: AsyncWaitPhase::Polling((n + 1) as u32),
                    }
                } else {
                    Step::Next {
                        pause: Pause::Sleep(FIRST_SLEEP),
                        phase: AsyncWaitPhase::Sleeping(FIRST_SLEEP),
                    }
                },
                AsyncWaitPhase::Sleeping(last) => {
                    let next = if last < LONGEST_SLEEP { (2 * last) as u64 } else { last };
                    Step::Next { pause: Pause::Sleep(next), phase: AsyncWaitPhase::Sleeping(next) }
                },
            }
        }
    }

    /// Waits for a short time for an asynchronous signal to finish: takes one step of the wait,
    /// which starts at `Polling(0)`.
    ///
    /// The waiter yields some times, then sleeps, for gradually longer times.
    pub fn async_blocking_wait(&self, phase: AsyncWaitPhase) -> (step: Step<AsyncWaitPhase>)
        ensures
            step == self.async_blocking_wait_step(phase),
            self.state.v < LOCKED <==> step is Done,
            step matches Step::Done(unlocked) ==> unlocked == (self.state.v == UNLOCKED),
    {
        let v = self.state.relaxed();
        if v < LOCKED {
            return Step::Done(v == UNLOCKED);
        }
        match phase {
            AsyncWaitPhase::Polling(n) => {
                if n < ASYNC_WAIT_YIELDS {
                    Step::Next { pause: Pause::Yield, phase: AsyncWaitPhase::Polling(n + 1) }
                } else {
                    Step::Next {
                        pause: Pause::Sleep(FIRST_SLEEP),
                        phase: AsyncWaitPhase::Sleeping(FIRST_SLEEP),
                    }
                }
            },
            AsyncWaitPhase::Sleeping(last) => {
                let mut sleep_time: u64 = last;
                if sleep_time < LONGEST_SLEEP {
                    sleep_time = sleep_time << 1;
                    assert(last < 262144 ==> last << 1 == 2 * last) by (bit_vector);
                }
                Step::Next {
                    pause: Pause::Sleep(sleep_time),
                    phase: AsyncWaitPhase::Sleeping(sleep_time),
                }
            },
        }
    }

    /// What [`Signal::wait`] comes to at `phase`, and what it leaves of the signal.
    pub open spec fn wait_step(self, phase: WaitPhase) -> (Signal<T>, Step<WaitPhase>) {
        match phase {
            WaitPhase::Polling(n) => (
                self,
                if !self.pending() {
                    Step::Done(self.unlocked())
                } else if n < WAIT_YIELDS {
                    Step::Next { pause: Pause::Yield, phase: WaitPhase::Polling((n + 1) as u32) }
                } else {
                    Step::Next { pause: Pause::Skip, phase: WaitPhase::Locking }
                },
            ),
            WaitPhase::Locking => if self.state.v == LOCKED || self.state.v == LOCKED_STARVATION {
                (
                    Signal { state: State { v: LOCKED_STARVATION }, ..self },
                    Step::Next { pause: Pause::Park, phase: WaitPhase::Parked },
                )
            } else {
                (self, Step::Next { pause: Pause::Skip, phase: WaitPhase::Settled })
            },
            WaitPhase::Parked | WaitPhase::Settled => (self, Step::Done(self.unlocked())),
        }
    }

    /// Waits for the signal to finish, in a thread: takes one step of the wait, which starts at
    /// `Polling(0)`.
    ///
    /// The waiter yields some times, then sleeps until it is woken. The wait accesses the state
    /// once in each step, so that the other side of the channel can answer between any two of its
    /// accesses. A waiter that sleeps takes its next step once it has been called.
    pub fn wait(&mut self, phase: WaitPhase) -> (step: Step<WaitPhase>)
        requires
            phase is Locking ==> old(self).waker is Sync,
            phase is Parked ==> old(self).called(),
            phase is Settled ==> !old(self).pending(),
        ensures
            (*final(self), step) == old(self).wait_step(phase),
            final(self).address == old(self).address,
            final(self).ptr == old(self).ptr,
            final(self).waker == old(self).waker,
            !(phase is Locking) ==> final(self).state == old(self).state,
            step matches Step::Done(unlocked) ==> unlocked == (old(self).state.v == UNLOCKED),
            phase is Polling ==> (old(self).state.v < LOCKED <==> step is Done),
    {
        match phase {
            WaitPhase::Polling(n) => {
                let v = self.state.relaxed();
                if v < LOCKED {
                    Step::Done(v == UNLOCKED)
                } else if n < WAIT_YIELDS {
                    Step::Next { pause: Pause::Yield, phase: WaitPhase::Polling(n + 1) }
                } else {
                    Step::Next { pause: Pause::Skip, phase: WaitPhase::Locking }
                }
            },
            WaitPhase::Locking => {
                if self.state.upgrade_lock() {
                    Step::Next { pause: Pause::Park, phase: WaitPhase::Parked }
                } else {
                    Step::Next { pause: Pause::Skip, phase: WaitPhase::Settled }
                }
            },
            WaitPhase::Parked | WaitPhase::Settled => {
                Step::Done(self.state.acquire() == UNLOCKED)
            },
        }
    }

    /// What [`Signal::wait_timeout`] comes to at `phase`.
    pub open spec fn wait_timeout_step(
        self,
        phase: TimeoutPhase,
        now: u64,
        until: u64,
    ) -> Step<TimeoutPhase> {
        if !self.pending() {
            Step::Done(self.unlocked())
        } else {
            match phase {
                TimeoutPhase::Polling(n) => Step::Next {
                    pause: Pause::Backoff,
                    phase: if n + 1 < TIMEOUT_WAIT_YIELDS {
                        TimeoutPhase::Polling((n + 1) as u32)
                    } else {
                        TimeoutPhase::Timed
                    },
                },
                TimeoutPhase::Timed => if now < until {
                    Step::Next { pause: Pause::Yield, phase: TimeoutPhase::Timed }
                } else {
                    Step::Done(false)
                },
            }
        }
    }

    /// Waits for the signal to finish, in a thread, until a deadline: takes one step of the wait,
    /// which starts at `Polling(0)`.
    ///
    /// `now` and `until` are times on one clock. The deadline counts once the waiter has yielded
    /// some times.
    pub fn wait_timeout(&self, phase: TimeoutPhase, now: u64, until: u64) -> (step: Step<
        TimeoutPhase,
    >)
        ensures
            step == self.wait_timeout_step(phase, now, until),
            self.state.v < LOCKED ==> step is Done,
            step matches Step::Done(unlocked) ==> unlocked == (self.state.v == UNLOCKED),
            self.state.v >= LOCKED ==> (step is Done <==> phase is Timed && now >= until),
    {
        match phase {
            TimeoutPhase::Polling(n) => {
                let v = self.state.relaxed();
                if v < LOCKED {
                    Step::Done(v == UNLOCKED)
                } else if n < TIMEOUT_WAIT_YIELDS - 1 {
                    Step::Next { pause: Pause::Backoff, phase: TimeoutPhase::Polling(n + 1) }
                } else {
                    Step::Next { pause: Pause::Backoff, phase: TimeoutPhase::Timed }
                }
            },
            TimeoutPhase::Timed => {
                if now < until {
                    let v = self.state.relaxed();
                    if v < LOCKED {
                        Step::Done(v == UNLOCKED)
                    } else {
                        Step::Next { pause: Pause::Yield, phase: TimeoutPhase::Timed }
                    }
                } else {
                    Step::Done(self.state.acquire() == UNLOCKED)
                }
            },
        }
    }

    /// Sets the place of the data to send, or to receive.
    pub fn set_ptr(&mut self, ptr: KanalPtr<T>)
        ensures
            *final(self) == (Signal { ptr, ..*old(self) }),
    {
        self.ptr = ptr;
    }

    /// Sets the task that is woken when the signal is answered: that of `waker`.
    pub fn register_waker(&mut self, waker: &Waker)
        ensures
            *final(self) == (Signal { waker: final(self).waker, ..*old(self) }),
            final(self).waker matches KanalWaker::Async(task) && cloned(*waker, task),
    {
        self.waker = KanalWaker::Async(waker.clone());
    }

    /// Tells whether the signal, once it is answered, wakes the task of `waker`, as far as the
    /// wakers know.
    pub fn will_wake(&self, waker: &Waker) -> (same: bool)
        requires
            self.waker is Async,
        ensures
            call_ensures(Waker::will_wake, (&self.waker->Async_0, waker), same),
    {
        match &self.waker {
            KanalWaker::Async(task) => task.will_wake(waker),
            KanalWaker::Sync(_) | KanalWaker::Unregistered => false,
        }
    }

    /// Tells whether the signal has been terminated.
    pub fn is_terminated(&self) -> (terminated: bool)
        ensures
            terminated == (self.state.v == TERMINATED),
    {
        self.state.relaxed() == TERMINATED
    }

    /// Takes the data out of its place.
    pub fn assume_init(&mut self) -> (data: T)
        requires
            old(self).ptr.slot is Some,
        ensures
            old(self).ptr.slot == Some(data),
            *final(self) == old(self).holding(None),
            final(self).ptr.slot is None,
            final(self).state == old(self).state,
            final(self).waker == old(self).waker,
            final(self).address == old(self).address,
    {
        self.ptr.read()
    }

    /// Takes the data out of its place and drops it.
    pub fn load_and_drop(&mut self)
        requires
            old(self).ptr.slot is Some,
        ensures
            *final(self) == old(self).holding(None),
            final(self).ptr.slot is None,
            final(self).state == old(self).state,
            final(self).waker == old(self).waker,
            final(self).address == old(self).address,
    {
        let _data = self.ptr.read();
    }

    /// The next access of the one that answers clones the waker of the task that waits.
    pub open spec fn is_cloned_by(self, answering: Answering<T>) -> bool {
        answering.phase is Notify && self.waker is Async
    }

    /// What the next access of the one that answers leaves of the signal, and how far it has come
    /// then. `clone` is the clone of the waker, if the access makes one.
    pub open spec fn answer_step(self, answering: Answering<T>, clone: Waker) -> (
        Signal<T>,
        Answering<T>,
    ) {
        let finished = State { v: answering.state };
        match answering.phase {
            AnswerPhase::Send(data) => (
                self.holding(Some(data)),
                Answering { phase: AnswerPhase::Notify, ..answering },
            ),
            AnswerPhase::Recv => (
                self.holding(None),
                Answering { taken: self.ptr.slot, phase: AnswerPhase::Notify, ..answering },
            ),
            AnswerPhase::Notify => if self.waker is Async {
                (self, Answering { phase: AnswerPhase::Store(clone), ..answering })
            } else if self.state.v == LOCKED {
                (
                    Signal { state: finished, ..self },
                    Answering { phase: AnswerPhase::Finished(None), ..answering },
                )
            } else {
                (self, Answering { phase: AnswerPhase::Force, ..answering })
            },
            AnswerPhase::Force => (
                Signal { state: finished, ..self },
                Answering { phase: AnswerPhase::Call, ..answering },
            ),
            AnswerPhase::Call => (
                Signal { waker: KanalWaker::Sync(SysWait { woken: true }), ..self },
                Answering { phase: AnswerPhase::Finished(None), ..answering },
            ),
            AnswerPhase::Store(waker) => (
                Signal { state: finished, ..self },
                Answering { phase: AnswerPhase::Finished(Some(waker)), ..answering },
            ),
            AnswerPhase::Finished(_) => (self, answering),
        }
    }

    /// What all accesses that are left of an answer, one after the other, leave of the signal, and
    /// how far the one that answers has come then.
    pub open spec fn answer_run(self, answering: Answering<T>, clone: Waker) -> (
        Signal<T>,
        Answering<T>,
    )
        decreases answering.rank(),
    {
        if answering.phase is Finished {
            (self, answering)
        } else {
            let (signal, next) = self.answer_step(answering, clone);
            signal.answer_run(next, clone)
        }
    }

    /// The next access of the one that answers is possible.
    pub open spec fn allows(self, answering: Answering<T>) -> bool {
        match answering.phase {
            AnswerPhase::Send(_) => self.ptr.slot is None,
            AnswerPhase::Recv => self.ptr.slot is Some,
            AnswerPhase::Notify => !(self.waker is Unregistered),
            AnswerPhase::Call => self.waker is Sync,
            AnswerPhase::Force | AnswerPhase::Store(_) | AnswerPhase::Finished(_) => true,
        }
    }

    /// Makes the next access of an answer to the signal.
    ///
    /// The data is handed over before the state tells the waiter so. A thread that sleeps is
    /// called after that, and sleeps on until it is. A task may be running: its waker is cloned
    /// before the state is changed, since the signal may be no more afterwards.
    pub fn answer(&mut self, answering: Answering<T>) -> (next: Answering<T>)
        requires
            old(self).allows(answering),
        ensures
            (*final(self), next) == old(self).answer_step(answering, next.phase->Store_0),
            old(self).is_cloned_by(answering) ==> cloned(
                old(self).waker->Async_0,
                next.phase->Store_0,
            ),
            final(self).address == old(self).address,
            next.state == answering.state,
            match answering.phase {
                AnswerPhase::Send(data) => {
                    &&& final(self).ptr.slot == Some(data)
                    &&& final(self).state == old(self).state
                    &&& final(self).waker == old(self).waker
                    &&& next.phase is Notify
                },
                AnswerPhase::Recv => {
                    &&& final(self).ptr.slot is None
                    &&& next.taken == old(self).ptr.slot
                    &&& final(self).state == old(self).state
                    &&& final(self).waker == old(self).waker
                    &&& next.phase is Notify
                },
                AnswerPhase::Notify => {
                    &&& final(self).ptr == old(self).ptr
                    &&& final(self).waker == old(self).waker
                    &&& old(self).waker matches KanalWaker::Async(task) ==> {
                        &&& final(self).state == old(self).state
                        &&& next.phase matches AnswerPhase::Store(clone) && cloned(task, clone)
                    }
                    &&& old(self).waker is Sync && old(self).state.v == LOCKED ==> {
                        &&& final(self).state.v == answering.state
                        &&& next.phase == AnswerPhase::<T>::Finished(None)
                    }
                    &&& old(self).waker is Sync && old(self).state.v != LOCKED ==> {
                        &&& final(self).state == old(self).state
                        &&& next.phase is Force
                    }
                },
                AnswerPhase::Force => {
                    &&& final(self).ptr == old(self).ptr
                    &&& final(self).waker == old(self).waker
                    &&& final(self).state.v == answering.state
                    &&& next.phase is Call
                },
                AnswerPhase::Call => {
                    &&& final(self).ptr == old(self).ptr
                    &&& final(self).state == old(self).state
                    &&& final(self).waker matches KanalWaker::Sync(wait) && wait.woken
                    &&& next.phase == AnswerPhase::<T>::Finished(None)
                },
                AnswerPhase::Store(clone) => {
                    &&& final(self).ptr == old(self).ptr
                    &&& final(self).waker == old(self).waker
                    &&& final(self).state.v == answering.state
                    &&& next.phase == AnswerPhase::<T>::Finished(Some(clone))
                },
                AnswerPhase::Finished(_) => *final(self) == *old(self) && next == answering,
            },
            !(answering.phase is Recv) ==> next.taken == answering.taken,
    {
        let Answering { state, taken, phase } = answering;
        match phase {
            AnswerPhase::Send(data) => {
                self.ptr.write(data);
                Answering { state, taken, phase: AnswerPhase::Notify }
            },
            AnswerPhase::Recv => {
                let data = self.ptr.read();
                Answering { state, taken: Some(data), phase: AnswerPhase::Notify }
            },
            AnswerPhase::Notify => match &self.waker {
                KanalWaker::Async(task) => {
                    Answering { state, taken, phase: AnswerPhase::Store(task.clone()) }
                },
                KanalWaker::Sync(_) | KanalWaker::Unregistered => {
                    if self.state.try_change(state) {
                        Answering { state, taken, phase: AnswerPhase::Finished(None) }
                    } else {
                        Answering { state, taken, phase: AnswerPhase::Force }
                    }
                },
            },
            AnswerPhase::Force => {
                self.state.force(state);
                Answering { state, taken, phase: AnswerPhase::Call }
            },
            AnswerPhase::Call => {
                if let KanalWaker::Sync(wait) = &mut self.waker {
                    wait.wake();
                }
                Answering { state, taken, phase: AnswerPhase::Finished(None) }
            },
            AnswerPhase::Store(waker) => {
                self.state.force(state);
                Answering { state, taken, phase: AnswerPhase::Finished(Some(waker)) }
            },
            AnswerPhase::Finished(waker) => {
                Answering { state, taken, phase: AnswerPhase::Finished(waker) }
            },
        }
    }

    /// Makes all accesses that are left of an answer to the signal, one after the other. Returns
    /// the data that was taken over, and the waker of the task to be woken.
    fn answer_in_full(&mut self, answering: Answering<T>) -> (end: (Option<T>, Option<Waker>))
        requires
            old(self).allows(answering),
            answering.phase is Send || answering.phase is Recv || answering.phase is Notify
                ==> !(old(self).waker is Unregistered),
            answering.phase is Force ==> old(self).waker is Sync,
        ensures
            (
                *final(self),
                Answering {
                    state: answering.state,
                    taken: end.0,
                    phase: AnswerPhase::Finished(end.1),
                },
            ) == old(self).answer_run(answering, end.1->Some_0),
            answering.phase is Send || answering.phase is Recv || answering.phase is Notify
                ==> old(self).wakes(end.1),
        decreases answering.rank(),
    {
        proof {
            reveal_with_fuel(Signal::answer_run, 3);
        }
        let next = self.answer(answering);
        match next.phase {
            AnswerPhase::Finished(waker) => (next.taken, waker),
            _ => self.answer_in_full(next),
        }
    }

    /// Brings the signal to a final state and wakes its waiter. The accesses are those of
    /// [`Signal::answer`], one after the other, and so in [`Signal::send`], [`Signal::recv`] and
    /// [`Signal::terminate`].
    ///
    /// A thread is called here. A task is woken by its waker, which is returned for that: by then
    /// the waiter may have seen the state and gone on, and the signal may be no more.
    pub fn wake(&mut self, state: u8) -> (waker: Option<Waker>)
        requires
            !(old(self).waker is Unregistered),
        ensures
            *final(self) == old(self).woken(state),
            old(self).wakes(waker),
            final(self).address == old(self).address,
            final(self).state.v == state,
            final(self).ptr == old(self).ptr,
            old(self).waker matches KanalWaker::Async(task) ==> {
                &&& final(self).waker == old(self).waker
                &&& waker matches Some(clone) && cloned(task, clone)
            },
            old(self).waker matches KanalWaker::Sync(wait) ==> {
                &&& final(self).waker == KanalWaker::Sync(
                    SysWait { woken: wait.woken || old(self).state.v != LOCKED },
                )
                &&& waker is None
            },
    {
        proof {
            reveal_with_fuel(Signal::answer_run, 4);
        }
        let answering = Answering { state, taken: None, phase: AnswerPhase::Notify };
        self.answer_in_full(answering).1
    }

    /// Hands `data` over to the signal, which receives, and wakes its waiter. Returns the waker of
    /// the task to be woken.
    pub fn send(&mut self, data: T) -> (waker: Option<Waker>)
        requires
            old(self).answerable(),
            old(self).ptr.slot is None,
        ensures
            *final(self) == old(self).holding(Some(data)).woken(UNLOCKED),
            old(self).wakes(waker),
            final(self).address == old(self).address,
            final(self).state.v == UNLOCKED,
            final(self).ptr.slot == Some(data),
            old(self).waker matches KanalWaker::Async(task) ==> {
                &&& final(self).waker == old(self).waker
                &&& waker matches Some(clone) && cloned(task, clone)
            },
            old(self).waker matches KanalWaker::Sync(wait) ==> {
                &&& final(self).waker == KanalWaker::Sync(
                    SysWait { woken: wait.woken || old(self).state.v != LOCKED },
                )
                &&& waker is None
            },
    {
        proof {
            reveal_with_fuel(Signal::answer_run, 5);
        }
        let answering = Answering { state: UNLOCKED, taken: None, phase: AnswerPhase::Send(data) };
        self.answer_in_full(answering).1
    }

    /// Takes the data over from the signal, which sends, and wakes its waiter. Returns the data
    /// and the waker of the task to be woken.
    pub fn recv(&mut self) -> (taken: (T, Option<Waker>))
        requires
            old(self).answerable(),
            old(self).ptr.slot is Some,
        ensures
            old(self).ptr.slot == Some(taken.0),
            *final(self) == old(self).holding(None).woken(UNLOCKED),
            old(self).wakes(taken.1),
            final(self).address == old(self).address,
            final(self).state.v == UNLOCKED,
            final(self).ptr.slot is None,
            old(self).waker matches KanalWaker::Async(task) ==> {
                &&& final(self).waker == old(self).waker
                &&& taken.1 matches Some(clone) && cloned(task, clone)
            },
            old(self).waker matches KanalWaker::Sync(wait) ==> {
                &&& final(self).waker == KanalWaker::Sync(
                    SysWait { woken: wait.woken || old(self).state.v != LOCKED },
                )
                &&& taken.1 is None
            },
    {
        proof {
            reveal_with_fuel(Signal::answer_run, 5);
        }
        let answering = Answering { state: UNLOCKED, taken: None, phase: AnswerPhase::Recv };
        let (data, waker) = self.answer_in_full(answering);
        (data.unwrap(), waker)
    }

    /// Terminates the signal and notifies its waiter. Returns the waker of the task to be woken.
    pub fn terminate(&mut self) -> (waker: Option<Waker>)
        requires
            old(self).answerable(),
        ensures
            *final(self) == old(self).woken(TERMINATED),
            old(self).wakes(waker),
            final(self).address == old(self).address,
            final(self).state.v == TERMINATED,
            final(self).ptr == old(self).ptr,
            old(self).waker matches KanalWaker::Async(task) ==> {
                &&& final(self).waker == old(self).waker
                &&& waker matches Some(clone) && cloned(task, clone)
            },
            old(self).waker matches KanalWaker::Sync(wait) ==> {
                &&& final(self).waker == KanalWaker::Sync(
                    SysWait { woken: wait.woken || old(self).state.v != LOCKED },
                )
                &&& waker is None
            },
    {
        self.wake(TERMINATED)
    }

    /// Returns the terminator of the signal, for the other side of its channel.
    pub fn get_terminator(&self) -> (terminator: SignalTerminator<T>)
        requires
            self.address is Some,
        ensures
            self.address == Some(terminator.addr),
    {
        SignalTerminator::from(self.address.unwrap())
    }
}

/// Each signal in memory knows its address.
pub open spec fn pinned<T>(signals: Map<usize, Signal<T>>) -> bool {
    forall|addr: usize| #[trigger]
        signals.contains_key(addr) ==> signals[addr].address == Some(addr)
}

/// The right to answer a signal, by its address.
pub struct SignalTerminator<T> {
    pub addr: usize,
    pub marker: PhantomData<T>,
}

impl<T> From<usize> for SignalTerminator<T> {
    /// Returns the terminator of the signal at `addr`.
    fn from(addr: usize) -> (terminator: SignalTerminator<T>) {
        SignalTerminator { addr, marker: PhantomData }
    }
}

impl<T> vstd::std_specs::convert::FromSpecImpl<usize> for SignalTerminator<T> {
    open spec fn obeys_from_spec() -> bool {
        true
    }

    open spec fn from_spec(addr: usize) -> SignalTerminator<T> {
        SignalTerminator { addr, marker: PhantomData }
    }
}

impl<T> PartialEq<Signal<T>> for SignalTerminator<T> {
    /// Tells whether the terminator is that of `signal`.
    fn eq(&self, signal: &Signal<T>) -> (same: bool) {
        match signal.address {
            Some(addr) => self.addr == addr,
            None => false,
        }
    }
}

impl<T> vstd::std_specs::cmp::PartialEqSpecImpl<Signal<T>> for SignalTerminator<T> {
    open spec fn obeys_eq_spec() -> bool {
        true
    }

    open spec fn eq_spec(&self, signal: &Signal<T>) -> bool {
        signal.address == Some(self.addr)
    }
}

impl<T> SignalTerminator<T> {
    /// Hands `data` over to the signal, which receives. Returns the waker of the task to be
    /// woken.
    pub fn send(self, data: T, signals: &mut Memory<Signal<T>>) -> (waker: Option<Waker>)
        requires
            old(signals)@.contains_key(self.addr),
            old(signals)@[self.addr].answerable(),
            old(signals)@[self.addr].ptr.slot is None,
        ensures
            final(signals)@ == old(signals)@.insert(
                self.addr,
                old(signals)@[self.addr].holding(Some(data)).woken(UNLOCKED),
            ),
            old(signals)@[self.addr].wakes(waker),
            final(signals)@.dom() == old(signals)@.dom(),
            forall|addr: usize|
                addr != self.addr && old(signals)@.contains_key(addr)
                    ==> #[trigger] final(signals)@[addr] == old(signals)@[addr],
            final(signals)@[self.addr].address == old(signals)@[self.addr].address,
            final(signals)@[self.addr].state.v == UNLOCKED,
            final(signals)@[self.addr].ptr.slot == Some(data),
            old(signals)@[self.addr].waker matches KanalWaker::Async(task) ==> {
                &&& final(signals)@[self.addr].waker == old(signals)@[self.addr].waker
                &&& waker matches Some(clone) && cloned(task, clone)
            },
            old(signals)@[self.addr].waker matches KanalWaker::Sync(wait) ==> {
                &&& final(signals)@[self.addr].waker == KanalWaker::Sync(
                    SysWait { woken: wait.woken || old(signals)@[self.addr].state.v != LOCKED },
                )
                &&& waker is None
            },
    {
        signals.get_mut(self.addr).send(data)
    }

    /// Takes the data over from the signal, which sends. Returns the data and the waker of the
    /// task to be woken.
    pub fn recv(self, signals: &mut Memory<Signal<T>>) -> (taken: (T, Option<Waker>))
        requires
            old(signals)@.contains_key(self.addr),
            old(signals)@[self.addr].answerable(),
            old(signals)@[self.addr].ptr.slot is Some,
        ensures
            old(signals)@[self.addr].ptr.slot == Some(taken.0),
            final(signals)@ == old(signals)@.insert(
                self.addr,
                old(signals)@[self.addr].holding(None).woken(UNLOCKED),
            ),
            old(signals)@[self.addr].wakes(taken.1),
            final(signals)@.dom() == old(signals)@.dom(),
            forall|addr: usize|
                addr != self.addr && old(signals)@.contains_key(addr)
                    ==> #[trigger] final(signals)@[addr] == old(signals)@[addr],
            final(signals)@[self.addr].address == old(signals)@[self.addr].address,
            final(signals)@[self.addr].state.v == UNLOCKED,
            final(signals)@[self.addr].ptr.slot is None,
            old(signals)@[self.addr].waker matches KanalWaker::Async(task) ==> {
                &&& final(signals)@[self.addr].waker == old(signals)@[self.addr].waker
                &&& taken.1 matches Some(clone) && cloned(task, clone)
            },
            old(signals)@[self.addr].waker matches KanalWaker::Sync(wait) ==> {
                &&& final(signals)@[self.addr].waker == KanalWaker::Sync(
                    SysWait { woken: wait.woken || old(signals)@[self.addr].state.v != LOCKED },
                )
                &&& taken.1 is None
            },
    {
        signals.get_mut(self.addr).recv()
    }

    /// Terminates the signal. Returns the waker of the task to be woken.
    pub fn terminate(&self, signals: &mut Memory<Signal<T>>) -> (waker: Option<Waker>)
        requires
            old(signals)@.contains_key(self.addr),
            old(signals)@[self.addr].answerable(),
        ensures
            final(signals)@ == old(signals)@.insert(
                self.addr,
                old(signals)@[self.addr].woken(TERMINATED),
            ),
            old(signals)@[self.addr].wakes(waker),
            final(signals)@.dom() == old(signals)@.dom(),
            forall|addr: usize|
                addr != self.addr && old(signals)@.contains_key(addr)
                    ==> #[trigger] final(signals)@[addr] == old(signals)@[addr],
            final(signals)@[self.addr].address == old(signals)@[self.addr].address,
            final(signals)@[self.addr].state.v == TERMINATED,
            final(signals)@[self.addr].ptr == old(signals)@[self.addr].ptr,
            old(signals)@[self.addr].waker matches KanalWaker::Async(task) ==> {
                &&& final(signals)@[self.addr].waker == old(signals)@[self.addr].waker
                &&& waker matches Some(clone) && cloned(task, clone)
            },
            old(signals)@[self.addr].waker matches KanalWaker::Sync(wait) ==> {
                &&& final(signals)@[self.addr].waker == KanalWaker::Sync(
                    SysWait { woken: wait.woken || old(signals)@[self.addr].state.v != LOCKED },
                )
                &&& waker is None
            },
    {
        signals.get_mut(self.addr).terminate()
    }
}

} // verus!
