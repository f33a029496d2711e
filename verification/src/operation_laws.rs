//! What the operations on signals and channels are for, said of what can be seen of them: places,
//! states, wakers, lists, queues and counts.
use crate::internal::{ChannelInternal, Heap, Internal};
use crate::mutex::Mutex;
use crate::signal::{
    AnswerPhase, Answering, AsyncWaitPhase, KanalWaker, Pause, Signal, SignalTerminator, Step,
    TimeoutPhase, WaitPhase,
};
use crate::state::{LOCKED, LOCKED_STARVATION, TERMINATED, UNLOCKED};
use crate::sync::SysWait;
use crate::wait_laws::Answer;
use crate::waits::Waits;
use std::task::Waker;
use vstd::prelude::*;
use vstd::std_specs::cmp::PartialEqSpec;
use vstd::std_specs::convert::FromSpec;

verus! {

/// Whatever its place holds, a signal on which a task waits is answered with a waker of that task,
/// and one on which a thread waits with none.
pub proof fn law_answer_comes_with_the_waker_of_the_task<T>(
    signal: Signal<T>,
    waker: Option<Waker>,
)
    ensures
        signal.waker matches KanalWaker::Async(task) ==> (signal.wakes(waker) <==> {
            waker matches Some(clone) && cloned(task, clone)
        }),
        !(signal.waker is Async) ==> (signal.wakes(waker) <==> waker is None),
{
}

/// Two signals with the same task are answered with the same wakers, whatever else they hold.
pub proof fn law_waker_depends_on_the_waiter_alone<T>(
    signal: Signal<T>,
    other: Signal<T>,
    waker: Option<Waker>,
)
    requires
        signal.waker == other.waker,
    ensures
        signal.wakes(waker) == other.wakes(waker),
{
}

/// A waiter is told what became of its signal, and nothing else of the signal changes: its place
/// and its address stay. A thread that sleeps is called, one that is awake is not, and whoever
/// waits is still the one that waited.
pub proof fn law_woken_signal_tells_its_waiter<T>(signal: Signal<T>, state: u8)
    ensures
        ({
            let woken = signal.woken(state);
            &&& woken.state.v == state
            &&& woken.ptr == signal.ptr
            &&& woken.address == signal.address
            &&& !(signal.waker is Sync) ==> woken.waker == signal.waker
            &&& signal.waker matches KanalWaker::Sync(wait) ==> {
                &&& woken.waker matches KanalWaker::Sync(after)
                &&& after.woken <==> wait.woken || signal.state.v != 2
            }
            &&& signal.waker is Sync && signal.state.v == 3 ==> woken.called()
        }),
{
}

/// To put something into the place of a signal, or to take it out, changes nothing but the place.
pub proof fn law_place_alone_changes<T>(signal: Signal<T>, slot: Option<T>, other: Option<T>)
    ensures
        signal.holding(slot).ptr.slot == slot,
        signal.holding(slot).state == signal.state,
        signal.holding(slot).waker == signal.waker,
        signal.holding(slot).address == signal.address,
        signal.holding(slot).holding(other) == signal.holding(other),
        signal.holding(signal.ptr.slot) == signal,
{
}

/// A signal is pending in the two locked states, and in none of the two final ones; it can be
/// answered as long as it is pending and somebody can be woken.
pub proof fn law_states_of_a_signal<T>(signal: Signal<T>)
    ensures
        UNLOCKED == 0,
        TERMINATED == 1,
        LOCKED == 2,
        LOCKED_STARVATION == 3,
        signal.pending() <==> signal.state.v >= 2,
        signal.unlocked() <==> signal.state.v == 0,
        signal.answerable() <==> signal.state.v >= 2 && !(signal.waker is Unregistered),
        signal.called() <==> signal.waker == KanalWaker::Sync(SysWait { woken: true }),
{
}

/// A value that is sent to a signal is what its waiter finds, and a value that is taken from a
/// signal is gone from it; a terminated signal keeps what it had. The waiter hears which it was.
pub proof fn law_answers_hand_over<T>(signal: Signal<T>, data: T)
    ensures
        Answer::Send(data).applied(signal).ptr.slot == Some(data),
        Answer::Send(data).applied(signal).state.v == 0,
        Answer::<T>::Recv.applied(signal).ptr.slot is None,
        Answer::<T>::Recv.applied(signal).state.v == 0,
        Answer::<T>::Terminate.applied(signal).ptr.slot == signal.ptr.slot,
        Answer::<T>::Terminate.applied(signal).state.v == 1,
        Answer::Send(data).suits(signal.ptr.slot) <==> signal.ptr.slot is None,
        Answer::<T>::Recv.suits(signal.ptr.slot) <==> signal.ptr.slot is Some,
        Answer::<T>::Terminate.suits(signal.ptr.slot),
{
}

/// An answer leaves alone what it is not about: after it the signal has its address and, if a task
/// waits on it, its waker.
pub proof fn law_answers_leave_the_rest<T>(signal: Signal<T>, answer: Answer<T>)
    ensures
        answer.applied(signal).address == signal.address,
        signal.waker is Async ==> answer.applied(signal).waker == signal.waker,
        signal.waker is Sync ==> answer.applied(signal).waker is Sync,
{
}

/// Access by access: the data moves and the state does not, then the state moves and the data does
/// not. The waker of a task is cloned while the signal is still pending; a thread is called last.
pub proof fn law_one_thing_changes_at_a_time<T>(
    signal: Signal<T>,
    answering: Answering<T>,
    clone: Waker,
)
    ensures
        ({
            let (after, next) = signal.answer_step(answering, clone);
            &&& after.address == signal.address
            &&& next.state == answering.state
            &&& answering.phase is Recv || next.taken == answering.taken
            &&& match answering.phase {
                AnswerPhase::Send(data) => {
                    &&& after.ptr.slot == Some(data)
                    &&& after.state == signal.state && after.waker == signal.waker
                    &&& next.phase is Notify
                },
                AnswerPhase::Recv => {
                    &&& after.ptr.slot is None && next.taken == signal.ptr.slot
                    &&& after.state == signal.state && after.waker == signal.waker
                    &&& next.phase is Notify
                },
                AnswerPhase::Notify => {
                    &&& after.ptr == signal.ptr && after.waker == signal.waker
                    &&& signal.waker is Async ==> {
                        after.state == signal.state && next.phase == AnswerPhase::<T>::Store(clone)
                    }
                    &&& !(signal.waker is Async) && signal.state.v == 2 ==> {
                        &&& after.state.v == answering.state
                        &&& next.phase == AnswerPhase::<T>::Finished(None)
                    }
                    &&& !(signal.waker is Async) && signal.state.v != 2 ==> {
                        after.state == signal.state && next.phase is Force
                    }
                },
                AnswerPhase::Force => {
                    &&& after.ptr == signal.ptr && after.waker == signal.waker
                    &&& after.state.v == answering.state && next.phase is Call
                },
                AnswerPhase::Call => {
                    &&& after.ptr == signal.ptr && after.state == signal.state
                    &&& after.called() && next.phase == AnswerPhase::<T>::Finished(None)
                },
                AnswerPhase::Store(waker) => {
                    &&& after.ptr == signal.ptr && after.waker == signal.waker
                    &&& after.state.v == answering.state
                    &&& next.phase == AnswerPhase::<T>::Finished(Some(waker))
                },
                AnswerPhase::Finished(_) => after == signal && next == answering,
            }
            &&& signal.is_cloned_by(answering) <==> answering.phase is Notify
                && signal.waker is Async
            &&& signal.allows(answering) <==> match answering.phase {
                AnswerPhase::Send(_) => signal.ptr.slot is None,
                AnswerPhase::Recv => signal.ptr.slot is Some,
                AnswerPhase::Notify => !(signal.waker is Unregistered),
                AnswerPhase::Call => signal.waker is Sync,
                _ => true,
            }
        }),
{
}

/// A thread that waits leaves the place, the address and the waker of its signal alone, and of its
/// state it changes nothing but that it sleeps.
pub proof fn law_waiting_thread_only_says_that_it_sleeps<T>(signal: Signal<T>, phase: WaitPhase)
    ensures
        ({
            let (after, step) = signal.wait_step(phase);
            &&& after.ptr == signal.ptr
            &&& after.address == signal.address
            &&& after.waker == signal.waker
            &&& step == Step::<WaitPhase>::Next { pause: Pause::Park, phase: WaitPhase::Parked }
                <==> after.state.v == 3 && phase is Locking
            &&& phase is Locking && (signal.state.v == 2 || signal.state.v == 3)
                ==> after.state.v == 3
            &&& !(phase is Locking && signal.state.v == 2) ==> after.state == signal.state
        }),
{
}

/// A thread that waits is told `true` for a signal that was unlocked, `false` for one that was
/// terminated, and as long as it polls a pending signal it goes on, for 256 yields.
pub proof fn law_waiting_thread_goes_on_while_pending<T>(signal: Signal<T>, phase: WaitPhase)
    ensures
        ({
            let step = signal.wait_step(phase).1;
            &&& step matches Step::Done(unlocked) ==> unlocked == (signal.state.v == 0)
            &&& phase is Parked || phase is Settled ==> step is Done
            &&& phase is Locking ==> !(step is Done)
            &&& phase is Locking && signal.state.v < 2 ==> step == Step::<WaitPhase>::Next {
                pause: Pause::Skip,
                phase: WaitPhase::Settled,
            }
            &&& phase matches WaitPhase::Polling(n) ==> {
                &&& step is Done <==> signal.state.v < 2
                &&& signal.state.v >= 2 && n < 256 ==> step == Step::<WaitPhase>::Next {
                    pause: Pause::Yield,
                    phase: WaitPhase::Polling((n + 1) as u32),
                }
                &&& signal.state.v >= 2 && n >= 256 ==> step == Step::<WaitPhase>::Next {
                    pause: Pause::Skip,
                    phase: WaitPhase::Locking,
                }
            }
        }),
{
}

/// A short wait for an asynchronous signal is over exactly when the signal is answered. Until then
/// there are 32 yields, a sleep of 1024 nanoseconds, and sleeps that are twice as long as the one
/// before, until one is of 262144 nanoseconds or more.
pub proof fn law_short_wait_goes_on_while_pending<T>(signal: Signal<T>, phase: AsyncWaitPhase)
    ensures
        ({
            let step = signal.async_blocking_wait_step(phase);
            &&& step is Done <==> signal.state.v < 2
            &&& step matches Step::Done(unlocked) ==> unlocked == (signal.state.v == 0)
            &&& step matches Step::Next { pause, phase: next } ==> match phase {
                AsyncWaitPhase::Polling(n) => if n < 32 {
                    pause is Yield && next == AsyncWaitPhase::Polling((n + 1) as u32)
                } else {
                    pause == Pause::Sleep(1024) && next == AsyncWaitPhase::Sleeping(1024)
                },
                AsyncWaitPhase::Sleeping(last) => {
                    &&& pause matches Pause::Sleep(now)
                    &&& next == AsyncWaitPhase::Sleeping(now)
                    &&& now == if last < 262144 { 2 * last } else { last as int }
                },
            }
        }),
{
}

/// A wait with a deadline is over exactly when the signal is answered, or when the deadline has come
/// after 32 moments of back-off; a signal that is then still pending counts as not handed over.
pub proof fn law_timed_wait_goes_on_while_pending<T>(
    signal: Signal<T>,
    phase: TimeoutPhase,
    now: u64,
    until: u64,
)
    ensures
        ({
            let step = signal.wait_timeout_step(phase, now, until);
            &&& step is Done <==> signal.state.v < 2 || (phase is Timed && now >= until)
            &&& step matches Step::Done(unlocked) ==> unlocked == (signal.state.v == 0)
            &&& step matches Step::Next { pause, phase: next } ==> match phase {
                TimeoutPhase::Polling(n) => {
                    &&& pause is Backoff
                    &&& n < 31 ==> next == TimeoutPhase::Polling((n + 1) as u32)
                    &&& n >= 31 ==> next is Timed
                },
                TimeoutPhase::Timed => pause is Yield && next is Timed,
            }
        }),
{
}

/// A terminator names the signal at its address: it is made from that address, and it equals a
/// signal exactly if that is where the signal lives.
pub proof fn law_terminator_goes_by_the_address<T>(addr: usize, signal: Signal<T>)
    ensures
        <SignalTerminator<T> as FromSpec<usize>>::from_spec(addr).addr == addr,
        <SignalTerminator<T> as FromSpec<usize>>::from_spec(addr).eq_spec(&signal) <==> {
            signal.address == Some(addr)
        },
        <SignalTerminator<T> as FromSpec<usize>>::obeys_from_spec(),
        <SignalTerminator<T> as PartialEqSpec<Signal<T>>>::obeys_eq_spec(),
{
}

/// The waiters of a channel are those on its list, in that order.
pub proof fn law_waits_are_the_list<T>(channel: ChannelInternal<T>, i: int)
    ensures
        channel.waits().recv_blocking == channel.recv_blocking,
        channel.waits().addrs.len() == channel.wait_list@.len(),
        0 <= i < channel.wait_list@.len() ==> channel.waits().addrs[i]
            == channel.wait_list@[i].addr,
{
}

/// Whoever begins to wait, a sender or a receiver, stands behind all that wait already, and those
/// keep their places.
pub proof fn law_newcomer_stands_last(waits: Waits, addr: usize, i: int)
    ensures
        waits.push(addr).recv_blocking == waits.recv_blocking,
        waits.push(addr).addrs.len() == waits.addrs.len() + 1,
        waits.push(addr).addrs[waits.addrs.len() as int] == addr,
        0 <= i < waits.addrs.len() ==> waits.push(addr).addrs[i] == waits.addrs[i],
{
}

/// Whoever waits longest is served, and nobody else: the others move up by one place. Nobody is
/// served from the list of the other side, or from an empty one.
pub proof fn law_head_is_served(waits: Waits, recv: bool, i: int)
    ensures
        ({
            let (rest, served) = waits.next(recv);
            if waits.recv_blocking == recv && waits.addrs.len() > 0 {
                &&& served == Some(waits.addrs[0])
                &&& rest.recv_blocking == recv
                &&& rest.addrs.len() == waits.addrs.len() - 1
                &&& 0 <= i < rest.addrs.len() ==> rest.addrs[i] == waits.addrs[i + 1]
            } else {
                &&& served is None
                &&& rest.recv_blocking == !recv
                &&& rest.addrs == waits.addrs
            }
        }),
{
}

/// Of two that begin to wait one after the other, the first is served before the second: the first
/// once all that were there before have been served, the second next.
pub proof fn law_earlier_is_served_earlier(waits: Waits, first: usize, second: usize)
    ensures
        ({
            let recv = waits.recv_blocking;
            let both = waits.push(first).push(second);
            let turn = crate::channel_laws::after_serving(both, recv, waits.addrs.len());
            let next = crate::channel_laws::after_serving(both, recv, waits.addrs.len() + 1);
            &&& turn.next(recv).1 == Some(first)
            &&& next.next(recv).1 == Some(second)
        }),
{
    let both = waits.push(first).push(second);
    let n = waits.addrs.len();
    crate::channel_laws::law_first_come_first_served(both, n);
    crate::channel_laws::law_first_come_first_served(both, n + 1);
}

/// On an empty list, whoever comes alone is served first, and leaves the list empty.
pub proof fn law_only_waiter_is_served(recv: bool, addr: usize)
    ensures
        ({
            let alone = Waits { recv_blocking: recv, addrs: Seq::empty() }.push(addr);
            &&& alone.next(recv).1 == Some(addr)
            &&& alone.next(recv).0.addrs.len() == 0
            &&& alone.next(!recv).1 is None
        }),
{
}

/// A signal is reported as waiting exactly if its address stands anywhere on the list of its side.
pub proof fn law_listed_wherever_it_stands(waits: Waits, recv: bool, addr: Option<usize>)
    ensures
        forall|i: int|
            0 <= i < waits.addrs.len() ==> waits.lists(
                waits.recv_blocking,
                Some(#[trigger] waits.addrs[i]),
            ),
        waits.lists(recv, addr) ==> waits.recv_blocking == recv && exists|i: int|
            0 <= i < waits.addrs.len() && addr == Some(#[trigger] waits.addrs[i]),
        !waits.lists(!waits.recv_blocking, addr),
        !waits.lists(recv, None),
{
}

/// A cancel is reported as done exactly if it has made the list shorter, by one; what is gone is
/// then the first place where the signal stood, and nothing else moves. Otherwise nothing changes.
pub proof fn law_cancel_reports_what_it_did(waits: Waits, recv: bool, addr: Option<usize>)
    ensures
        ({
            let rest = waits.cancel(recv, addr);
            &&& rest.recv_blocking == waits.recv_blocking
            &&& waits.lists(recv, addr) <==> rest.addrs.len() + 1 == waits.addrs.len()
            &&& !waits.lists(recv, addr) ==> rest == waits
            &&& waits.lists(recv, addr) ==> exists|i: int|
                {
                    &&& 0 <= i < waits.addrs.len()
                    &&& addr == Some(waits.addrs[i])
                    &&& forall|j: int| 0 <= j < i ==> addr != Some(#[trigger] waits.addrs[j])
                    &&& rest.addrs == #[trigger] waits.addrs.remove(i)
                }
        }),
{
    if waits.lists(recv, addr) {
        waits.addrs.index_of_first_ensures(addr->Some_0);
        let i = waits.addrs.index_of_first(addr->Some_0)->Some_0;
        assert(waits.cancel(recv, addr).addrs == waits.addrs.remove(i));
    }
}

/// Waiters come, are served and give up without anybody else noticing: the queue, the capacity and
/// the counts of the channel stay.
pub proof fn law_waiters_leave_the_rest_alone<T>(
    channel: ChannelInternal<T>,
    before: ChannelInternal<T>,
)
    requires
        channel.same_but_waits(before),
    ensures
        channel.queue == before.queue,
        channel.queue@ == before.queue@,
        channel.capacity == before.capacity,
        channel.send_count == before.send_count,
        channel.recv_count == before.recv_count,
        channel.ref_count == before.ref_count,
{
}

/// How many values a channel may hold, what it holds and who waits on it stay when a handle is
/// cloned. One handle more is counted, on its own side, if that is not closed.
pub proof fn law_clone_counts_one_more<T>(channel: ChannelInternal<T>, is_sender: bool)
    requires
        channel.can_increment(is_sender),
    ensures
        ({
            let after = channel.incremented(is_sender);
            &&& after.capacity == channel.capacity
            &&& after.queue == channel.queue
            &&& after.queue@ == channel.queue@
            &&& after.wait_list == channel.wait_list
            &&& after.recv_blocking == channel.recv_blocking
            &&& after.ref_count == channel.ref_count + 1
            &&& after.send_count - channel.send_count == (if is_sender && channel.send_count != 0 {
                1int
            } else {
                0int
            })
            &&& after.recv_count - channel.recv_count == (if !is_sender && channel.recv_count != 0 {
                1int
            } else {
                0int
            })
        }),
{
}

/// The counts can be raised as long as they fit into their types.
pub proof fn law_counts_can_grow<T>(channel: ChannelInternal<T>)
    ensures
        channel.can_increment(true) <==> channel.ref_count < u64::MAX && channel.send_count
            < u32::MAX,
        channel.can_increment(false) <==> channel.ref_count < u64::MAX && channel.recv_count
            < u32::MAX,
{
}

/// A side closes with its last sender or receiver while there is somebody on the other side, and
/// at no other time.
pub proof fn law_side_closes_with_its_last_user<T>(channel: ChannelInternal<T>)
    ensures
        channel.closes(true) <==> channel.send_count == 1 && channel.recv_count > 0,
        channel.closes(false) <==> channel.recv_count == 1 && channel.send_count > 0,
{
}

/// Values that were sent survive the departure of a sender or receiver, also of one with which its
/// side closes: the queue is the one from before, value by value. So are the capacity and the side
/// whose list it is. One handle less is counted, on its own side, if that is not closed.
pub proof fn law_values_survive_a_departure<T>(
    channel: ChannelInternal<T>,
    is_sender: bool,
    signals: Map<usize, Signal<T>>,
    after: ChannelInternal<T>,
    signals_after: Map<usize, Signal<T>>,
    wakers: Seq<Waker>,
)
    requires
        channel.ref_count > 0,
        channel.left_by(is_sender, signals, after, signals_after, wakers),
    ensures
        after.queue == channel.queue,
        after.queue@ == channel.queue@,
        after.capacity == channel.capacity,
        after.recv_blocking == channel.recv_blocking,
        after.ref_count == channel.ref_count - 1,
        channel.send_count - after.send_count == (if is_sender && channel.send_count != 0 {
            1int
        } else {
            0int
        }),
        channel.recv_count - after.recv_count == (if !is_sender && channel.recv_count != 0 {
            1int
        } else {
            0int
        }),
{
}

/// A departure that closes no side is noticed by no waiter: the list and all signals stay, and
/// nobody is woken.
pub proof fn law_quiet_departure_wakes_nobody<T>(
    channel: ChannelInternal<T>,
    is_sender: bool,
    signals: Map<usize, Signal<T>>,
    after: ChannelInternal<T>,
    signals_after: Map<usize, Signal<T>>,
    wakers: Seq<Waker>,
)
    requires
        channel.left_by(is_sender, signals, after, signals_after, wakers),
        is_sender ==> channel.send_count != 1 || channel.recv_count == 0,
        !is_sender ==> channel.recv_count != 1 || channel.send_count == 0,
    ensures
        after.wait_list == channel.wait_list,
        signals_after == signals,
        wakers.len() == 0,
{
}

/// A departure that closes a side terminates the signals on the list, and no others. Each keeps its
/// value, its address and its task; a thread that slept is called. The list is then empty.
pub proof fn law_closing_terminates_the_list<T>(
    channel: ChannelInternal<T>,
    is_sender: bool,
    signals: Map<usize, Signal<T>>,
    after: ChannelInternal<T>,
    signals_after: Map<usize, Signal<T>>,
    wakers: Seq<Waker>,
    addr: usize,
)
    requires
        channel.left_by(is_sender, signals, after, signals_after, wakers),
        is_sender ==> channel.send_count == 1 && channel.recv_count != 0,
        !is_sender ==> channel.recv_count == 1 && channel.send_count != 0,
    ensures
        after.wait_list@.len() == 0,
        signals_after.contains_key(addr) <==> signals.contains_key(addr),
        signals.contains_key(addr) ==> {
            let signal = signals[addr];
            let told = signals_after[addr];
            &&& told.ptr == signal.ptr
            &&& told.address == signal.address
            &&& signal.waker is Async ==> told.waker == signal.waker
            &&& if exists|i: int|
                0 <= i < channel.wait_list@.len() && (#[trigger] channel.wait_list@[i]).addr
                    == addr {
                &&& told.state.v == 1
                &&& signal.waker is Sync && signal.state.v == 3 ==> told.called()
                &&& signal.waker is Sync && signal.state.v == 2 ==> told.waker == signal.waker
            } else {
                told == signal
            }
        },
{
    let addrs = channel.waits().addrs;
    if addrs.contains(addr) {
        let i = choose|i: int| 0 <= i < addrs.len() && addrs[i] == addr;
        assert(channel.wait_list@[i].addr == addr);
    }
    assert forall|i: int|
        0 <= i < channel.wait_list@.len() && (#[trigger] channel.wait_list@[i]).addr
            == addr implies addrs.contains(addr) by {
        assert(addrs[i] == addr);
    }
}

/// To terminate the signals on a list brings those to their end and leaves all others as they are.
/// None is lost, and of those on the list nothing changes but the state and, for a thread that is
/// not awake, the call.
pub proof fn law_terminated_signals<T>(
    signals: Map<usize, Signal<T>>,
    addrs: Seq<usize>,
    addr: usize,
)
    ensures
        ({
            let after = crate::internal::terminated(signals, addrs);
            &&& after.contains_key(addr) <==> signals.contains_key(addr)
            &&& signals.contains_key(addr) && !addrs.contains(addr) ==> after[addr]
                == signals[addr]
            &&& signals.contains_key(addr) && addrs.contains(addr) ==> {
                &&& after[addr].state.v == 1
                &&& after[addr].ptr == signals[addr].ptr
                &&& after[addr].address == signals[addr].address
                &&& !(signals[addr].waker is Sync) ==> after[addr].waker == signals[addr].waker
                &&& signals[addr].waker matches KanalWaker::Sync(wait) ==> {
                    &&& after[addr].waker matches KanalWaker::Sync(told)
                    &&& told.woken <==> wait.woken || signals[addr].state.v != 2
                }
            }
        }),
{
}

/// The tasks on a list: none on an empty one, and one more behind a list adds its task, if it is
/// one, behind the others.
pub proof fn law_tasks_of_a_list<T>(signals: Map<usize, Signal<T>>, addrs: Seq<usize>, addr: usize)
    ensures
        crate::internal::tasks(signals, Seq::<usize>::empty()).len() == 0,
        signals[addr].waker matches KanalWaker::Async(task) ==> crate::internal::tasks(
            signals,
            addrs.push(addr),
        ) == crate::internal::tasks(signals, addrs).push(task),
        !(signals[addr].waker is Async) ==> crate::internal::tasks(signals, addrs.push(addr))
            == crate::internal::tasks(signals, addrs),
{
    assert(addrs.push(addr).drop_last() =~= addrs);
}

/// As many wakers come out as there are tasks, each a clone of the one in its place.
pub proof fn law_clones_are_of_all(wakers: Seq<Waker>, clones: Seq<Waker>, i: int)
    requires
        crate::internal::all_cloned(wakers, clones),
    ensures
        clones.len() == wakers.len(),
        0 <= i < wakers.len() ==> cloned(wakers[i], clones[i]),
{
}

/// As many wakers come out of a departure that closes a side as tasks waited, in their order, and
/// each wakes one of them.
pub proof fn law_closing_wakes_each_task<T>(
    channel: ChannelInternal<T>,
    is_sender: bool,
    signals: Map<usize, Signal<T>>,
    after: ChannelInternal<T>,
    signals_after: Map<usize, Signal<T>>,
    wakers: Seq<Waker>,
    k: int,
)
    requires
        channel.left_by(is_sender, signals, after, signals_after, wakers),
        is_sender ==> channel.send_count == 1 && channel.recv_count != 0,
        !is_sender ==> channel.recv_count == 1 && channel.send_count != 0,
        0 <= k < wakers.len(),
    ensures
        exists|i: int|
            {
                &&& 0 <= i < channel.wait_list@.len()
                &&& signals[(#[trigger] channel.wait_list@[i]).addr].waker matches KanalWaker::Async(
                    task,
                )
                &&& cloned(task, wakers[k])
            },
        wakers.len() == crate::internal::tasks(signals, channel.waits().addrs).len(),
{
    let addrs = channel.waits().addrs;
    let all = crate::internal::tasks(signals, addrs);
    assert(cloned(all[k], wakers[k]));
    lemma_task_waits(signals, addrs, k);
    let i = choose|i: int|
        0 <= i < addrs.len() && signals[#[trigger] addrs[i]].waker == KanalWaker::Async(all[k]);
    assert(channel.wait_list@[i].addr == addrs[i]);
}

proof fn lemma_task_waits<T>(signals: Map<usize, Signal<T>>, addrs: Seq<usize>, k: int)
    requires
        0 <= k < crate::internal::tasks(signals, addrs).len(),
    ensures
        exists|i: int|
            0 <= i < addrs.len() && signals[#[trigger] addrs[i]].waker == KanalWaker::Async(
                crate::internal::tasks(signals, addrs)[k],
            ),
    decreases addrs.len(),
{
    if addrs.len() > 0 {
        let rest = addrs.drop_last();
        let before = crate::internal::tasks(signals, rest);
        if k < before.len() {
            lemma_task_waits(signals, rest, k);
            let i = choose|i: int|
                0 <= i < rest.len() && signals[#[trigger] rest[i]].waker == KanalWaker::Async(
                    before[k],
                );
            assert(addrs[i] == rest[i]);
        } else {
            assert(signals[addrs[addrs.len() - 1]].waker is Async);
        }
    }
}

/// Handles with one address are handles to one channel: it lives if something lives there, it is
/// free if its lock has it, and to store it changes nothing elsewhere.
pub proof fn law_handle_goes_by_the_address<T>(
    internal: Internal<T>,
    heap: Heap<T>,
    channel: ChannelInternal<T>,
    other: usize,
)
    ensures
        internal.alive(heap) <==> heap.channels@.contains_key(internal.addr()),
        internal.free(heap) <==> {
            heap.channels@.contains_key(internal.addr()) && heap.channels@[internal.addr()].value
                is Some
        },
        internal.free(heap) ==> heap.channels@[internal.addr()].value == Some(
            internal.channel(heap),
        ),
        internal.stored(heap.channels@, channel)[internal.addr()] == (Mutex {
            value: Some(channel),
        }),
        internal.stored(heap.channels@, channel).contains_key(internal.addr()),
        other != internal.addr() ==> {
            let stored = internal.stored(heap.channels@, channel);
            &&& stored.contains_key(other) <==> heap.channels@.contains_key(other)
            &&& heap.channels@.contains_key(other) ==> stored[other] == heap.channels@[other]
        },
{
}

/// When a handle is dropped, its channel ends if that was the last, and nothing else ends. If it
/// lives on, its lock is free, and its queue and its capacity are those from before.
pub proof fn law_dropped_handle_keeps_the_channel<T>(
    internal: Internal<T>,
    is_sender: bool,
    heap: Heap<T>,
    after: Heap<T>,
    wakers: Seq<Waker>,
    other: usize,
)
    requires
        internal.free(heap),
        internal.channel(heap).ref_count > 0,
        internal.left_by(is_sender, heap, after, wakers),
    ensures
        after.channels@.contains_key(internal.addr()) <==> internal.channel(heap).ref_count != 1,
        after.channels@.contains_key(internal.addr()) ==> {
            let before = heap.channels@[internal.addr()].value->Some_0;
            &&& after.channels@[internal.addr()].value matches Some(channel)
            &&& channel.queue == before.queue
            &&& channel.queue@ == before.queue@
            &&& channel.capacity == before.capacity
            &&& channel.recv_blocking == before.recv_blocking
            &&& channel.ref_count == before.ref_count - 1
            &&& channel.send_count == before.send_count || is_sender && channel.send_count
                == before.send_count - 1
            &&& channel.recv_count == before.recv_count || !is_sender && channel.recv_count
                == before.recv_count - 1
            &&& is_sender && before.send_count > 0 ==> channel.send_count < before.send_count
            &&& !is_sender && before.recv_count > 0 ==> channel.recv_count < before.recv_count
        },
        other != internal.addr() ==> {
            &&& after.channels@.contains_key(other) <==> heap.channels@.contains_key(other)
            &&& heap.channels@.contains_key(other) ==> after.channels@[other]
                == heap.channels@[other]
        },
{
}

/// To clone handles and to drop as many again, in whatever order the two sides do it, leaves the
/// channel as it was: its counts, its queue and its capacity.
pub proof fn law_clones_and_drops_cancel_out<T>(
    channel: ChannelInternal<T>,
    first: bool,
    second: bool,
)
    requires
        channel.can_increment(first),
        channel.incremented(first).can_increment(second),
    ensures
        channel.incremented(first).incremented(second).decremented(first).decremented(second)
            == channel,
        channel.incremented(first).incremented(second) == channel.incremented(second).incremented(
            first,
        ),
{
}

/// What the counts stand for: as many handles as there are senders and receivers, and on each side
/// as many as there are, unless it is closed.
pub proof fn law_counts_are_of_live_users<T>(
    channel: ChannelInternal<T>,
    senders: nat,
    receivers: nat,
)
    ensures
        channel.counts(senders, receivers) <==> {
            &&& channel.ref_count == senders + receivers
            &&& channel.send_count == senders || channel.send_count == 0
            &&& channel.recv_count == receivers || channel.recv_count == 0
        },
        channel.nobody_waits_in_vain() <==> {
            channel.wait_list@.len() == 0 || (channel.send_count > 0 && channel.recv_count > 0)
        },
{
}

/// A list can be answered as a whole if each signal on it lives, is pending and can wake its waiter,
/// and none is on it twice. It is well-formed if, besides, each knows its address and holds a value
/// exactly if the list is that of the senders.
pub proof fn law_lists_that_can_be_answered<T>(waits: Waits, signals: Map<usize, Signal<T>>)
    ensures
        waits.answerable(signals) <==> {
            &&& forall|i: int, j: int|
                0 <= i < j < waits.addrs.len() ==> #[trigger] waits.addrs[i]
                    != #[trigger] waits.addrs[j]
            &&& forall|i: int|
                0 <= i < waits.addrs.len() ==> {
                    &&& signals.contains_key(#[trigger] waits.addrs[i])
                    &&& signals[waits.addrs[i]].state.v >= 2
                    &&& !(signals[waits.addrs[i]].waker is Unregistered)
                }
        },
        waits.well_formed(signals) <==> {
            &&& waits.answerable(signals)
            &&& forall|i: int|
                0 <= i < waits.addrs.len() ==> {
                    &&& signals[#[trigger] waits.addrs[i]].address == Some(waits.addrs[i])
                    &&& signals[waits.addrs[i]].ptr.slot is Some <==> !waits.recv_blocking
                }
        },
{
    if waits.answerable(signals) {
        assert forall|i: int, j: int|
            0 <= i < j < waits.addrs.len() implies #[trigger] waits.addrs[i]
                != #[trigger] waits.addrs[j] by {}
    }
}

/// A handle can be dropped while the lock of its channel is free, the channel counts it, and all
/// that would have to be notified can be.
pub proof fn law_handle_can_be_dropped<T>(internal: Internal<T>, is_sender: bool, heap: Heap<T>)
    ensures
        internal.can_leave(is_sender, heap) <==> {
            &&& internal.free(heap)
            &&& internal.channel(heap).ref_count > 0
            &&& internal.channel(heap).closes(is_sender) ==> internal.channel(
                heap,
            ).waits().answerable(heap.signals@)
        },
{
}

/// A terminator that is there is told from none, by the address of its signal.
pub proof fn law_served_by_address<T>(terminator: SignalTerminator<T>)
    ensures
        crate::internal::answered(Some(terminator)) == Some(terminator.addr),
        crate::internal::answered(None::<SignalTerminator<T>>) is None,
{
}

/// A queue fits if its values together are no larger than the largest object.
pub proof fn law_queue_fits<T>(capacity: usize)
    ensures
        crate::internal::fits::<T>(capacity) <==> capacity * vstd::layout::size_of::<T>()
            <= isize::MAX,
{
}

} // verus!
