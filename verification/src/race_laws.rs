//! What holds when the one that waits on a signal and the one that answers it access the signal in
//! turns.
//!
//! [`Signal::answer`] makes one access of an answer. Here the steps of the waiter may come between
//! any two of these accesses.
use crate::pointer::KanalPtr;
use crate::signal::{AnswerPhase, Answering, Signal, WaitPhase};
use crate::state::LOCKED_STARVATION;
use crate::wait_laws::{Answer, Event, Wait, Waiter, Waiting};
use std::task::Waker;
use vstd::prelude::*;

verus! {

impl<T> Answer<T> {
    /// The one that answers has just begun.
    pub open spec fn begun(self) -> Answering<T> {
        Answering::begun(
            self.state(),
            match self {
                Answer::Send(data) => AnswerPhase::Send(data),
                Answer::Recv => AnswerPhase::Recv,
                Answer::Terminate => AnswerPhase::Notify,
            },
        )
    }
}

/// Who makes an access to the signal.
pub enum Mover {
    /// The one that waits.
    Waiter,
    /// The one that answers. Where its access clones a waker, this is the clone.
    Answerer(Waker),
}

/// One that waits on a signal, and another that answers it.
pub struct Race<T> {
    pub wait: Wait<T>,
    pub answering: Answering<T>,
}

impl<T> Race<T> {
    /// Both begin.
    pub open spec fn begun(
        address: Option<usize>,
        ptr: KanalPtr<T>,
        waiting: Waiting,
        answer: Answer<T>,
    ) -> Race<T> {
        Race { wait: Wait::begun(address, ptr, waiting), answering: answer.begun() }
    }

    /// What the next access of the one that answers leads to: that which [`Signal::answer`] makes.
    pub open spec fn answered(self, clone: Waker) -> Race<T> {
        let (signal, answering) = self.wait.signal.answer_step(self.answering, clone);
        Race { wait: Wait { signal, ..self.wait }, answering }
    }

    /// `mover` can make an access.
    pub open spec fn can(self, mover: Mover) -> bool {
        match mover {
            Mover::Waiter => self.wait.can_step(),
            Mover::Answerer(clone) => {
                &&& !(self.answering.phase is Finished)
                &&& self.wait.signal.is_cloned_by(self.answering) ==> cloned(
                    self.wait.signal.waker->Async_0,
                    clone,
                )
            },
        }
    }

    /// What the access of `mover` leads to.
    pub open spec fn after(self, mover: Mover) -> Race<T> {
        match mover {
            Mover::Waiter => Race { wait: self.wait.after(Event::Step), ..self },
            Mover::Answerer(clone) => self.answered(clone),
        }
    }

    /// The accesses of `movers` can follow one another.
    pub open spec fn can_run(self, movers: Seq<Mover>) -> bool
        decreases movers.len(),
    {
        movers.len() == 0 || {
            &&& self.can_run(movers.drop_last())
            &&& self.run(movers.drop_last()).can(movers.last())
        }
    }

    /// What the accesses of `movers`, one after the other, lead to.
    pub open spec fn run(self, movers: Seq<Mover>) -> Race<T>
        decreases movers.len(),
    {
        if movers.len() == 0 {
            self
        } else {
            self.run(movers.drop_last()).after(movers.last())
        }
    }

    /// Where the two are fits the signal: one that sleeps is not left alone, and of a task there
    /// is a waker to be woken in the end.
    pub open spec fn consistent(self) -> bool {
        let signal = self.wait.signal;
        let parked = self.wait.waiter == Waiter::At(WaitPhase::Parked);
        match self.answering.phase {
            AnswerPhase::Send(_) | AnswerPhase::Recv | AnswerPhase::Notify => {
                &&& self.wait.consistent()
                &&& signal.pending()
            },
            AnswerPhase::Force => {
                &&& parked
                &&& signal.waker is Sync
                &&& signal.state.v == LOCKED_STARVATION
                &&& !signal.called()
            },
            AnswerPhase::Call => {
                &&& parked
                &&& signal.waker is Sync
                &&& signal.state.v == self.answering.state
                &&& !signal.called()
            },
            AnswerPhase::Store(clone) => {
                &&& self.wait.consistent()
                &&& signal.pending()
                &&& signal.wakes(Some(clone))
            },
            AnswerPhase::Finished(waker) => {
                &&& self.wait.consistent()
                &&& signal.state.v == self.answering.state
                &&& signal.wakes(waker)
            },
        }
    }
}

/// In whatever turns the two access the signal, a waiter whose wait is over, a thread or a task,
/// finds the answer complete: the data was handed over before it could see that, and the one that
/// answers accesses the signal no more, so that the waiter may give up its memory. What is left to
/// do for a task, to wake it, needs nothing but a clone of its waker.
pub proof fn law_signal_is_let_go_before_the_wait_ends<T>(
    address: Option<usize>,
    ptr: KanalPtr<T>,
    waiting: Waiting,
    answer: Answer<T>,
    movers: Seq<Mover>,
)
    requires
        answer.suits(ptr.slot),
        Race::begun(address, ptr, waiting, answer).can_run(movers),
    ensures
        ({
            let race = Race::begun(address, ptr, waiting, answer).run(movers);
            let phase = race.answering.phase;
            &&& race.consistent()
            &&& race.answering.state == answer.state()
            &&& race.wait.signal.waker is Async <==> waiting is Task
            &&& waiting matches Waiting::Task(task) ==> race.wait.signal.waker->Async_0 == task
            &&& if phase is Send || phase is Recv {
                &&& phase == answer.begun().phase
                &&& race.wait.signal.ptr.slot == ptr.slot
            } else {
                &&& race.wait.signal.ptr.slot == answer.leaves(ptr.slot)
                &&& answer is Recv ==> race.answering.taken == ptr.slot
            }
            &&& race.wait.waiter matches Waiter::Done(unlocked) ==> {
                &&& phase is Finished
                &&& unlocked == !(answer is Terminate)
                &&& race.wait.signal.ptr.slot == answer.leaves(ptr.slot)
            }
            &&& phase matches AnswerPhase::Finished(waker) ==> match waiting {
                Waiting::Task(task) => waker matches Some(clone) && cloned(task, clone),
                _ => waker is None,
            }
        }),
    decreases movers.len(),
{
    if movers.len() > 0 {
        law_signal_is_let_go_before_the_wait_ends(
            address,
            ptr,
            waiting,
            answer,
            movers.drop_last(),
        );
    }
}

/// In whatever turns the two access the signal, none of them gets stuck: each access of the one
/// that answers is one that [`Signal::answer`] can make, there are at most four of them, and once
/// they are made, a waiter that still waits can go on, asleep or not.
pub proof fn law_race_goes_on<T>(
    address: Option<usize>,
    ptr: KanalPtr<T>,
    waiting: Waiting,
    answer: Answer<T>,
    movers: Seq<Mover>,
    clone: Waker,
)
    requires
        answer.suits(ptr.slot),
        Race::begun(address, ptr, waiting, answer).can_run(movers),
    ensures
        ({
            let race = Race::begun(address, ptr, waiting, answer).run(movers);
            &&& race.wait.signal.allows(race.answering)
            &&& race.answered(clone).answered(clone).answered(clone).answered(
                clone,
            ).answering.phase is Finished
            &&& race.answering.phase is Finished ==> race.wait.waiter is Done
                || race.wait.can_step()
        }),
{
    law_signal_is_let_go_before_the_wait_ends(address, ptr, waiting, answer, movers);
}

/// Made without a break, the accesses of the one that answers leave the signal as the operations
/// of the library do.
pub proof fn law_accesses_make_the_answer<T>(signal: Signal<T>, answer: Answer<T>, clone: Waker)
    requires
        signal.answerable(),
        answer.suits(signal.ptr.slot),
    ensures
        ({
            let (after, end) = signal.answer_run(answer.begun(), clone);
            &&& after == answer.applied(signal)
            &&& answer is Recv ==> end.taken == signal.ptr.slot
            &&& end.phase == AnswerPhase::<T>::Finished(
                if signal.waker is Async {
                    Some(clone)
                } else {
                    None
                },
            )
        }),
{
    reveal_with_fuel(Signal::answer_run, 5);
}

} // verus!
