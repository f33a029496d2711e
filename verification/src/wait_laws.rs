//! What holds of a signal over the whole of a wait.
use crate::pointer::KanalPtr;
use crate::signal::{
    AsyncWaitPhase, KanalWaker, Pause, Signal, Step, TimeoutPhase, WaitPhase, ASYNC_WAIT_YIELDS,
    FIRST_SLEEP, LONGEST_SLEEP, TIMEOUT_WAIT_YIELDS, WAIT_YIELDS,
};
use crate::state::{State, LOCKED, LOCKED_STARVATION, TERMINATED, UNLOCKED};
use crate::sync::SysWait;
use std::task::Waker;
use vstd::prelude::*;

verus! {

/// How the other side of a channel answers a signal.
pub enum Answer<T> {
    /// It hands a value over to a signal that receives.
    Send(T),
    /// It takes the value over from a signal that sends.
    Recv,
    /// It terminates the signal.
    Terminate,
}

impl<T> Answer<T> {
    /// The answer suits a signal with `slot` in its place.
    pub open spec fn suits(self, slot: Option<T>) -> bool {
        match self {
            Answer::Send(_) => slot is None,
            Answer::Recv => slot is Some,
            Answer::Terminate => true,
        }
    }

    /// What the answer leaves in the place where `slot` was.
    pub open spec fn leaves(self, slot: Option<T>) -> Option<T> {
        match self {
            Answer::Send(data) => Some(data),
            Answer::Recv => None,
            Answer::Terminate => slot,
        }
    }

    /// The final state to which the answer brings a signal.
    pub open spec fn state(self) -> u8 {
        if self is Terminate {
            TERMINATED
        } else {
            UNLOCKED
        }
    }

    /// The signal after the answer, as [`Signal::send`], [`Signal::recv`] and
    /// [`Signal::terminate`] leave it.
    pub open spec fn applied(self, signal: Signal<T>) -> Signal<T> {
        signal.holding(self.leaves(signal.ptr.slot)).woken(self.state())
    }
}

/// Who waits on a signal, and how.
pub enum Waiting {
    /// A thread, by [`Signal::wait`].
    Thread,
    /// A thread, by [`Signal::wait_timeout`], as long as its deadline has not come.
    Timed,
    /// The task of this waker, by [`Signal::poll`] or [`Signal::async_blocking_wait`].
    Task(Waker),
}

/// What can happen to a signal on which somebody waits.
pub enum Event<T> {
    /// The waiter takes a step.
    Step,
    /// The other side of the channel answers.
    Answered(Answer<T>),
}

/// How far a waiter has come.
pub enum Waiter {
    /// It waits by [`Signal::wait`].
    At(WaitPhase),
    /// It waits, and looks at the state of the signal from time to time.
    Polling,
    /// It waits no more, with this result.
    Done(bool),
}

/// A signal, and the one that waits on it.
pub struct Wait<T> {
    pub signal: Signal<T>,
    pub waiter: Waiter,
}

impl<T> Wait<T> {
    /// A waiter that has just begun to wait, with the place `ptr`, on the signal at `address`.
    pub open spec fn begun(address: Option<usize>, ptr: KanalPtr<T>, waiting: Waiting) -> Wait<T> {
        Wait {
            signal: Signal {
                address,
                state: State { v: LOCKED },
                ptr,
                waker: match waiting {
                    Waiting::Task(task) => KanalWaker::Async(task),
                    _ => KanalWaker::Sync(SysWait { woken: false }),
                },
            },
            waiter: if waiting is Thread {
                Waiter::At(WaitPhase::Polling(0))
            } else {
                Waiter::Polling
            },
        }
    }

    /// The waiter can take a step: it waits, and if it sleeps, it has been called.
    pub open spec fn can_step(self) -> bool {
        &&& !(self.waiter is Done)
        &&& self.waiter == Waiter::At(WaitPhase::Parked) ==> self.signal.called()
    }

    /// `event` can happen.
    pub open spec fn can(self, event: Event<T>) -> bool {
        match event {
            Event::Step => self.can_step(),
            Event::Answered(answer) => self.signal.answerable() && answer.suits(
                self.signal.ptr.slot,
            ),
        }
    }

    /// What `event` makes of the wait.
    pub open spec fn after(self, event: Event<T>) -> Wait<T> {
        match event {
            Event::Step => match self.waiter {
                Waiter::At(phase) => {
                    let (signal, step) = self.signal.wait_step(phase);
                    Wait {
                        signal,
                        waiter: match step {
                            Step::Done(unlocked) => Waiter::Done(unlocked),
                            Step::Next { phase, .. } => Waiter::At(phase),
                        },
                    }
                },
                Waiter::Polling => if self.signal.pending() {
                    self
                } else {
                    Wait { waiter: Waiter::Done(self.signal.unlocked()), ..self }
                },
                Waiter::Done(_) => self,
            },
            Event::Answered(answer) => Wait { signal: answer.applied(self.signal), ..self },
        }
    }

    /// `events` can happen one after the other.
    pub open spec fn can_run(self, events: Seq<Event<T>>) -> bool
        decreases events.len(),
    {
        events.len() == 0 || {
            &&& self.can_run(events.drop_last())
            &&& self.run(events.drop_last()).can(events.last())
        }
    }

    /// What `events`, one after the other, make of the wait.
    pub open spec fn run(self, events: Seq<Event<T>>) -> Wait<T>
        decreases events.len(),
    {
        if events.len() == 0 {
            self
        } else {
            self.run(events.drop_last()).after(events.last())
        }
    }

    /// The state of the signal, and the call to its thread, fit the place where the waiter is:
    /// while it sleeps, the signal is pending and says so, or the thread has been called.
    pub open spec fn consistent(self) -> bool {
        &&& !(self.signal.waker is Unregistered)
        &&& match self.waiter {
            Waiter::At(phase) => self.signal.waker is Sync && match phase {
                WaitPhase::Polling(_) | WaitPhase::Locking => {
                    self.signal.state.v <= LOCKED && !self.signal.called()
                },
                WaitPhase::Parked => if self.signal.called() {
                    !self.signal.pending()
                } else {
                    self.signal.state.v == LOCKED_STARVATION
                },
                WaitPhase::Settled => !self.signal.pending(),
            },
            Waiter::Polling => self.signal.state.v <= LOCKED && !self.signal.called(),
            Waiter::Done(unlocked) => {
                !self.signal.pending() && unlocked == self.signal.unlocked()
            },
        }
    }
}

/// The answer among `events`, if there is one.
pub open spec fn answer_in<T>(events: Seq<Event<T>>) -> Option<Answer<T>>
    decreases events.len(),
{
    if events.len() == 0 {
        None
    } else {
        match events.last() {
            Event::Answered(answer) => Some(answer),
            Event::Step => answer_in(events.drop_last()),
        }
    }
}

/// However the steps of a waiter and the answer of the other side follow each other, the waiter,
/// a thread or a task, is told the truth. Its wait ends only after the answer; it ends with `true` exactly if
/// the data was handed over. What was sent to a signal that receives is then in its place, and
/// what a signal sends has then been taken; a terminated signal keeps what it had.
pub proof fn law_wait_reports_the_answer<T>(
    address: Option<usize>,
    ptr: KanalPtr<T>,
    waiting: Waiting,
    events: Seq<Event<T>>,
)
    requires
        Wait::begun(address, ptr, waiting).can_run(events),
    ensures
        Wait::begun(address, ptr, waiting).run(events).consistent(),
        match answer_in(events) {
            None => {
                let wait = Wait::begun(address, ptr, waiting).run(events);
                &&& !(wait.waiter is Done)
                &&& wait.signal.pending()
                &&& wait.signal.ptr == ptr
            },
            Some(answer) => {
                let wait = Wait::begun(address, ptr, waiting).run(events);
                &&& wait.waiter matches Waiter::Done(unlocked) ==> unlocked == !(answer
                    is Terminate)
                &&& wait.signal.state.v == answer.state()
                &&& answer.suits(ptr.slot)
                &&& wait.signal.ptr.slot == answer.leaves(ptr.slot)
            },
        },
    decreases events.len(),
{
    if events.len() > 0 {
        law_wait_reports_the_answer(address, ptr, waiting, events.drop_last());
    }
}

/// No answer is missed: once a signal has been answered, the one that waits on it can take its
/// steps, asleep or not, and after at most two of them its wait is over.
pub proof fn law_answered_wait_ends<T>(
    address: Option<usize>,
    ptr: KanalPtr<T>,
    waiting: Waiting,
    events: Seq<Event<T>>,
)
    requires
        Wait::begun(address, ptr, waiting).can_run(events),
        answer_in(events) is Some,
    ensures
        ({
            let wait = Wait::begun(address, ptr, waiting).run(events);
            let next = wait.after(Event::Step);
            wait.waiter is Done || {
                &&& wait.can_step()
                &&& next.waiter is Done || {
                    &&& next.can_step()
                    &&& next.after(Event::Step).waiter is Done
                }
            }
        }),
{
    law_wait_reports_the_answer(address, ptr, waiting, events);
}

/// A thread that sleeps is called exactly if its signal has been answered.
pub proof fn law_sleeper_is_called_when_answered<T>(
    address: Option<usize>,
    ptr: KanalPtr<T>,
    waiting: Waiting,
    events: Seq<Event<T>>,
)
    requires
        Wait::begun(address, ptr, waiting).can_run(events),
        Wait::begun(address, ptr, waiting).run(events).waiter == Waiter::At(WaitPhase::Parked),
    ensures
        Wait::begun(address, ptr, waiting).run(events).signal.called() <==> answer_in(events) is Some,
{
    law_wait_reports_the_answer(address, ptr, waiting, events);
}

/// A signal is answered at most once.
pub proof fn law_answered_once<T>(
    address: Option<usize>,
    ptr: KanalPtr<T>,
    waiting: Waiting,
    events: Seq<Event<T>>,
    i: int,
    j: int,
)
    requires
        Wait::begun(address, ptr, waiting).can_run(events),
        0 <= i < events.len(),
        0 <= j < events.len(),
        events[i] is Answered,
        events[j] is Answered,
    ensures
        i == j,
    decreases events.len(),
{
    let rest = events.drop_last();
    law_wait_reports_the_answer(address, ptr, waiting, rest);
    if i < rest.len() && j < rest.len() {
        law_answered_once(address, ptr, waiting, rest, i, j);
    } else if i < rest.len() {
        lemma_answer_in(rest, i);
    } else if j < rest.len() {
        lemma_answer_in(rest, j);
    }
}

proof fn lemma_answer_in<T>(events: Seq<Event<T>>, i: int)
    requires
        0 <= i < events.len(),
        events[i] is Answered,
    ensures
        answer_in(events) is Some,
    decreases events.len(),
{
    if i < events.len() - 1 {
        lemma_answer_in(events.drop_last(), i);
    }
}

/// A signal that is answered gives the same news to every kind of waiter, wherever it stands: the
/// wait is over, with `true` exactly if the data was handed over. Only a thread that is about to
/// go to sleep first finds out that it is not to.
pub proof fn law_answer_ends_every_wait<T>(
    signal: Signal<T>,
    answer: Answer<T>,
    phase: WaitPhase,
    async_phase: AsyncWaitPhase,
    timeout_phase: TimeoutPhase,
    now: u64,
    until: u64,
)
    ensures
        ({
            let news = !(answer is Terminate);
            let after = answer.applied(signal);
            &&& !after.pending()
            &&& after.unlocked() == news
            &&& after.wait_step(phase) == if phase is Locking {
                (after, Step::Next { pause: Pause::Skip, phase: WaitPhase::Settled })
            } else {
                (after, Step::Done(news))
            }
            &&& after.async_blocking_wait_step(async_phase) == Step::<AsyncWaitPhase>::Done(news)
            &&& after.wait_timeout_step(timeout_phase, now, until) == Step::<TimeoutPhase>::Done(
                news,
            )
        }),
{
}

/// A task that waits shortly for its signal, and a thread that waits until a deadline which has not
/// come, find the wait over exactly when a look at the state does, with the same result.
pub proof fn law_polling_waits_agree<T>(
    signal: Signal<T>,
    async_phase: AsyncWaitPhase,
    timeout_phase: TimeoutPhase,
    now: u64,
    until: u64,
    unlocked: bool,
)
    requires
        now < until,
    ensures
        ({
            let looked = Wait { signal, waiter: Waiter::Polling }.after(Event::Step);
            let over = looked.waiter == Waiter::Done(unlocked);
            &&& looked.signal == signal
            &&& over <==> signal.async_blocking_wait_step(async_phase) == Step::<
                AsyncWaitPhase,
            >::Done(unlocked)
            &&& over <==> signal.wait_timeout_step(timeout_phase, now, until) == Step::<
                TimeoutPhase,
            >::Done(unlocked)
        }),
{
}

/// Step number `n`, from 0, of a thread that waits on a signal which nobody answers, and the
/// signal after it.
pub open spec fn nth_wait_step<T>(signal: Signal<T>, n: nat) -> (Signal<T>, Step<WaitPhase>)
    decreases n,
{
    if n == 0 {
        signal.wait_step(WaitPhase::Polling(0))
    } else {
        let (before, step) = nth_wait_step(signal, (n - 1) as nat);
        match step {
            Step::Done(_) => (before, step),
            Step::Next { phase, .. } => before.wait_step(phase),
        }
    }
}

/// A thread whose signal is not answered yields as often as it should, and then sleeps, after it
/// has left word of that in the signal.
pub proof fn law_thread_yields_then_sleeps<T>(signal: Signal<T>, n: nat)
    requires
        signal.state.v == LOCKED,
        n <= WAIT_YIELDS + 1,
    ensures
        nth_wait_step(signal, n) == if n < WAIT_YIELDS {
            (
                signal,
                Step::Next { pause: Pause::Yield, phase: WaitPhase::Polling((n + 1) as u32) },
            )
        } else if n == WAIT_YIELDS {
            (signal, Step::Next { pause: Pause::Skip, phase: WaitPhase::Locking })
        } else {
            (
                Signal { state: State { v: LOCKED_STARVATION }, ..signal },
                Step::Next { pause: Pause::Park, phase: WaitPhase::Parked },
            )
        },
    decreases n,
{
    if n > 0 {
        law_thread_yields_then_sleeps(signal, (n - 1) as nat);
    }
}

/// Step number `n`, from 0, of [`Signal::async_blocking_wait`] on a signal which nobody answers.
pub open spec fn nth_async_wait_step<T>(signal: Signal<T>, n: nat) -> Step<AsyncWaitPhase>
    decreases n,
{
    if n == 0 {
        signal.async_blocking_wait_step(AsyncWaitPhase::Polling(0))
    } else {
        match nth_async_wait_step(signal, (n - 1) as nat) {
            Step::Done(unlocked) => Step::Done(unlocked),
            Step::Next { phase, .. } => signal.async_blocking_wait_step(phase),
        }
    }
}

/// The sleep number `i`, from 0, of [`Signal::async_blocking_wait`], in nanoseconds: each is twice
/// as long as the one before, up to the longest.
pub open spec fn nth_sleep(i: nat) -> nat {
    if i < 8 {
        vstd::arithmetic::power2::pow2(10 + i)
    } else {
        LONGEST_SLEEP as nat
    }
}

/// Whoever waits shortly for an asynchronous signal yields as often as it should, and then sleeps
/// for times that double from 2^10 to 2^18 nanoseconds and grow no further, until the signal is
/// answered.
pub proof fn law_async_wait_sleeps_gradually_longer<T>(signal: Signal<T>, n: nat)
    requires
        signal.pending(),
    ensures
        n < ASYNC_WAIT_YIELDS ==> nth_async_wait_step(signal, n) == (Step::Next {
            pause: Pause::Yield,
            phase: AsyncWaitPhase::Polling((n + 1) as u32),
        }),
        n >= ASYNC_WAIT_YIELDS ==> {
            let sleep = nth_sleep((n - ASYNC_WAIT_YIELDS) as nat);
            &&& FIRST_SLEEP <= sleep <= LONGEST_SLEEP
            &&& nth_async_wait_step(signal, n) == (Step::Next {
                pause: Pause::Sleep(sleep as u64),
                phase: AsyncWaitPhase::Sleeping(sleep as u64),
            })
        },
    decreases n,
{
    vstd::arithmetic::power2::lemma2_to64();
    if n > 0 {
        law_async_wait_sleeps_gradually_longer(signal, (n - 1) as nat);
        if ASYNC_WAIT_YIELDS < n <= ASYNC_WAIT_YIELDS + 8 {
            vstd::arithmetic::power2::lemma_pow2_unfold((10 + n - ASYNC_WAIT_YIELDS) as nat);
        }
    }
}

/// Step number `n`, from 0, of [`Signal::wait_timeout`] on a signal which nobody answers, if the
/// clock shows `clock(n)` at that step.
pub open spec fn nth_timeout_step<T>(
    signal: Signal<T>,
    clock: spec_fn(nat) -> u64,
    until: u64,
    n: nat,
) -> Step<TimeoutPhase>
    decreases n,
{
    if n == 0 {
        signal.wait_timeout_step(TimeoutPhase::Polling(0), clock(0), until)
    } else {
        match nth_timeout_step(signal, clock, until, (n - 1) as nat) {
            Step::Done(unlocked) => Step::Done(unlocked),
            Step::Next { phase, .. } => signal.wait_timeout_step(phase, clock(n), until),
        }
    }
}

/// A wait with a deadline on a signal that is not answered backs off as often as it should,
/// whatever the clock shows, then yields until the deadline has come, and then ends with `false`.
pub proof fn law_timeout_ends_at_the_deadline<T>(
    signal: Signal<T>,
    clock: spec_fn(nat) -> u64,
    until: u64,
    n: nat,
)
    requires
        signal.pending(),
        forall|k: nat| TIMEOUT_WAIT_YIELDS <= k < n ==> #[trigger] clock(k) < until,
    ensures
        nth_timeout_step(signal, clock, until, n) == if n + 1 < TIMEOUT_WAIT_YIELDS {
            Step::Next { pause: Pause::Backoff, phase: TimeoutPhase::Polling((n + 1) as u32) }
        } else if n < TIMEOUT_WAIT_YIELDS {
            Step::Next { pause: Pause::Backoff, phase: TimeoutPhase::Timed }
        } else if clock(n) < until {
            Step::Next { pause: Pause::Yield, phase: TimeoutPhase::Timed }
        } else {
            Step::Done(false)
        },
    decreases n,
{
    if n > 0 {
        law_timeout_ends_at_the_deadline(signal, clock, until, (n - 1) as nat);
    }
}

} // verus!
