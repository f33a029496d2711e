//! The shared part of a channel, and the handles by which senders and receivers reach it.
use crate::memory::Memory;
use crate::mutex::{Mutex, MutexGuard};
use crate::signal::{KanalWaker, Signal, SignalTerminator};
use crate::state::TERMINATED;
use crate::waits::Waits;
use branches::unlikely;
use std::collections::VecDeque;
use std::marker::PhantomData;
use std::task::Waker;
use vstd::prelude::*;

verus! {

/// The memory that channels and their waiters share.
pub struct Heap<T> {
    /// The channels, each behind a lock.
    pub channels: Memory<Mutex<ChannelInternal<T>>>,
    /// The signals of those that wait.
    pub signals: Memory<Signal<T>>,
}

impl<T> Heap<T> {
    /// Returns a memory without channels and without waiters.
    pub fn new() -> (heap: Heap<T>)
        ensures
            heap.channels@ == Map::<usize, Mutex<ChannelInternal<T>>>::empty(),
            heap.signals@ == Map::<usize, Signal<T>>::empty(),
    {
        Heap { channels: Memory::new(), signals: Memory::new() }
    }
}

/// The wakers of the tasks among the signals at `addrs`, in that order.
pub open spec fn tasks<T>(signals: Map<usize, Signal<T>>, addrs: Seq<usize>) -> Seq<Waker>
    decreases addrs.len(),
{
    if addrs.len() == 0 {
        Seq::empty()
    } else {
        let before = tasks(signals, addrs.drop_last());
        match signals[addrs.last()].waker {
            KanalWaker::Async(task) => before.push(task),
            _ => before,
        }
    }
}

/// `clones` holds a clone of each of `wakers`, in the same order.
pub open spec fn all_cloned(wakers: Seq<Waker>, clones: Seq<Waker>) -> bool {
    &&& clones.len() == wakers.len()
    &&& forall|i: int|
        0 <= i < wakers.len() ==> cloned(#[trigger] wakers[i], #[trigger] clones[i])
}

/// `signals` with those at `addrs` terminated.
pub open spec fn terminated<T>(signals: Map<usize, Signal<T>>, addrs: Seq<usize>) -> Map<
    usize,
    Signal<T>,
> {
    signals.map_entries(
        |addr: usize, signal: Signal<T>|
            if addrs.contains(addr) {
                signal.woken(TERMINATED)
            } else {
                signal
            },
    )
}

/// The address of the signal that a terminator, if there is one, answers.
pub open spec fn answered<T>(terminator: Option<SignalTerminator<T>>) -> Option<usize> {
    match terminator {
        Some(terminator) => Some(terminator.addr),
        None => None,
    }
}

/// The shared part of a channel: its queue, its waiters, and the count of those that use it.
pub struct ChannelInternal<T> {
    /// The values that have been sent and not yet received.
    pub queue: VecDeque<T>,
    /// Whether the waiters are receivers.
    pub recv_blocking: bool,
    /// Receivers that wait for a value, or senders that wait for room.
    pub wait_list: VecDeque<SignalTerminator<T>>,
    /// How many values the queue may hold.
    pub capacity: usize,
    /// The count of live receivers, or 0 once the receiving side is closed.
    pub recv_count: u32,
    /// The count of live senders, or 0 once the sending side is closed.
    pub send_count: u32,
    /// The count of live handles.
    pub ref_count: u64,
}

impl<T> ChannelInternal<T> {
    /// The waiters.
    pub open spec fn waits(self) -> Waits {
        Waits {
            recv_blocking: self.recv_blocking,
            addrs: Seq::new(self.wait_list@.len(), |i: int| self.wait_list@[i].addr),
        }
    }

    /// Nothing but the waiters differs from `other`.
    pub open spec fn same_but_waits(self, other: ChannelInternal<T>) -> bool {
        self == (ChannelInternal {
            recv_blocking: self.recv_blocking,
            wait_list: self.wait_list,
            ..other
        })
    }

    /// The counts of the channel are right for so many live senders and receivers. A side that is
    /// closed counts none.
    pub open spec fn counts(self, senders: nat, receivers: nat) -> bool {
        &&& self.ref_count == senders + receivers
        &&& self.send_count == 0 || self.send_count == senders
        &&& self.recv_count == 0 || self.recv_count == receivers
    }

    /// Nobody waits on a channel one side of which is closed.
    pub open spec fn nobody_waits_in_vain(self) -> bool {
        self.send_count == 0 || self.recv_count == 0 ==> self.wait_list@.len() == 0
    }

    /// The channel with one more sender (`is_sender`) or receiver. A closed side stays closed.
    pub open spec fn incremented(self, is_sender: bool) -> ChannelInternal<T> {
        ChannelInternal {
            send_count: if is_sender && self.send_count > 0 {
                (self.send_count + 1) as u32
            } else {
                self.send_count
            },
            recv_count: if !is_sender && self.recv_count > 0 {
                (self.recv_count + 1) as u32
            } else {
                self.recv_count
            },
            ref_count: (self.ref_count + 1) as u64,
            ..self
        }
    }

    /// The channel with one sender (`is_sender`) or receiver less. A closed side stays closed.
    pub open spec fn decremented(self, is_sender: bool) -> ChannelInternal<T> {
        ChannelInternal {
            send_count: if is_sender && self.send_count > 0 {
                (self.send_count - 1) as u32
            } else {
                self.send_count
            },
            recv_count: if !is_sender && self.recv_count > 0 {
                (self.recv_count - 1) as u32
            } else {
                self.recv_count
            },
            ref_count: (self.ref_count - 1) as u64,
            ..self
        }
    }

    /// The count of senders (`is_sender`) or receivers can be raised.
    pub open spec fn can_increment(self, is_sender: bool) -> bool {
        &&& self.ref_count < u64::MAX
        &&& if is_sender {
            self.send_count < u32::MAX
        } else {
            self.recv_count < u32::MAX
        }
    }

    /// The sender (`is_sender`) or receiver that leaves is the last on its side, while the other
    /// side is still in use.
    pub open spec fn closes(self, is_sender: bool) -> bool {
        if is_sender {
            self.send_count == 1 && self.recv_count != 0
        } else {
            self.recv_count == 1 && self.send_count != 0
        }
    }

    /// What is left of the channel, here `after`, and of the signals when a sender (`is_sender`)
    /// or receiver has left it, and the clones of the wakers that are then to be woken.
    pub open spec fn left_by(
        self,
        is_sender: bool,
        signals: Map<usize, Signal<T>>,
        after: ChannelInternal<T>,
        signals_after: Map<usize, Signal<T>>,
        wakers: Seq<Waker>,
    ) -> bool {
        if self.closes(is_sender) {
            &&& after == (ChannelInternal {
                wait_list: after.wait_list,
                ..self.decremented(is_sender)
            })
            &&& after.wait_list@.len() == 0
            &&& signals_after == terminated(signals, self.waits().addrs)
            &&& all_cloned(tasks(signals, self.waits().addrs), wakers)
        } else {
            &&& after == self.decremented(is_sender)
            &&& signals_after == signals
            &&& wakers.len() == 0
        }
    }

    /// Terminates the signals of all waiters, to notify them that the channel is closed, and
    /// empties the list of waiters. Returns the wakers of the tasks to be woken.
    pub fn terminate_signals(&mut self, signals: &mut Memory<Signal<T>>) -> (wakers: Vec<Waker>)
        requires
            old(self).waits().answerable(old(signals)@),
        ensures
            *final(self) == (ChannelInternal { wait_list: final(self).wait_list, ..*old(self) }),
            final(self).wait_list@.len() == 0,
            final(signals)@ == terminated(old(signals)@, old(self).waits().addrs),
            all_cloned(tasks(old(signals)@, old(self).waits().addrs), wakers@),
            final(signals)@.dom() == old(signals)@.dom(),
            forall|i: int|
                0 <= i < old(self).wait_list@.len() ==> {
                    let signal = final(signals)@[#[trigger] old(self).wait_list@[i].addr];
                    &&& signal.state.v == TERMINATED
                    &&& signal.ptr == old(signals)@[old(self).wait_list@[i].addr].ptr
                    &&& signal.address == old(signals)@[old(self).wait_list@[i].addr].address
                },
    {
        let ghost addrs = self.waits().addrs;
        let mut wakers: Vec<Waker> = Vec::new();
        let mut i: usize = 0;
        proof {
            assert(addrs.take(0) =~= Seq::<usize>::empty());
            assert(terminated(signals@, addrs.take(0)) =~= signals@);
        }
        while i < self.wait_list.len()
            invariant
                i <= self.wait_list@.len(),
                *self == *old(self),
                addrs == self.waits().addrs,
                self.waits().answerable(old(signals)@),
                signals@ == terminated(old(signals)@, addrs.take(i as int)),
                all_cloned(tasks(old(signals)@, addrs.take(i as int)), wakers@),
            decreases self.wait_list@.len() - i,
        {
            let ghost before = signals@;
            let ghost addr = addrs[i as int];
            proof {
                assert(old(signals)@[addr].answerable());
                assert(addrs.take(i + 1) =~= addrs.take(i as int).push(addr));
                assert(addrs.take(i + 1).drop_last() =~= addrs.take(i as int));
                assert(!addrs.take(i as int).contains(addr));
                assert(before[addr] == old(signals)@[addr]);
            }
            if let Some(waker) = self.wait_list[i].terminate(signals) {
                wakers.push(waker);
            }
            proof {
                let ghost after = addrs.take(i + 1);
                assert(after.contains(addr)) by {
                    assert(after[i as int] == addr);
                }
                assert forall|a: usize| a != addr implies after.contains(a) == addrs.take(
                    i as int,
                ).contains(a) by {
                    if addrs.take(i as int).contains(a) {
                        let j = choose|j: int| 0 <= j < i && addrs.take(i as int)[j] == a;
                        assert(after[j] == a);
                    }
                    if after.contains(a) {
                        let j = choose|j: int| 0 <= j < i + 1 && after[j] == a;
                        assert(addrs.take(i as int)[j] == a);
                    }
                }
                assert(signals@ =~= terminated(old(signals)@, after));
            }
            i = i + 1;
        }
        proof {
            assert(addrs.take(i as int) =~= addrs);
            assert forall|j: int| 0 <= j < old(self).wait_list@.len() implies addrs.contains(
                #[trigger] old(self).wait_list@[j].addr,
            ) by {
                assert(addrs[j] == old(self).wait_list@[j].addr);
            }
        }
        self.wait_list.clear();
        wakers
    }

    /// Returns the sender that waits longest, which waits no more.
    pub fn next_send(&mut self) -> (next: Option<SignalTerminator<T>>)
        ensures
            final(self).same_but_waits(*old(self)),
            (final(self).waits(), answered(next)) == old(self).waits().next(false),
            final(self).queue == old(self).queue,
            final(self).capacity == old(self).capacity,
            final(self).recv_count == old(self).recv_count,
            final(self).send_count == old(self).send_count,
            final(self).ref_count == old(self).ref_count,
            if old(self).recv_blocking {
                &&& next is None
                &&& final(self).recv_blocking
                &&& final(self).wait_list == old(self).wait_list
            } else if old(self).wait_list@.len() == 0 {
                &&& next is None
                &&& final(self).recv_blocking
                &&& final(self).wait_list@.len() == 0
            } else {
                &&& next == Some(old(self).wait_list@[0])
                &&& !final(self).recv_blocking
                &&& final(self).wait_list@ == old(self).wait_list@.drop_first()
            },
    {
        if self.recv_blocking {
            return None;
        }
        match self.wait_list.pop_front() {
            Some(terminator) => {
                assert(self.waits() =~= old(self).waits().next(false).0);
                Some(terminator)
            },
            None => {
                self.recv_blocking = true;
                assert(self.waits() =~= old(self).waits().next(false).0);
                None
            },
        }
    }

    /// Adds a sender to those that wait.
    pub fn push_send(&mut self, s: SignalTerminator<T>)
        ensures
            final(self).same_but_waits(*old(self)),
            final(self).waits() == old(self).waits().push(s.addr),
            final(self).queue == old(self).queue,
            final(self).capacity == old(self).capacity,
            final(self).recv_count == old(self).recv_count,
            final(self).send_count == old(self).send_count,
            final(self).ref_count == old(self).ref_count,
            final(self).recv_blocking == old(self).recv_blocking,
            final(self).wait_list@ == old(self).wait_list@.push(s),
    {
        self.wait_list.push_back(s);
        assert(self.waits() =~= old(self).waits().push(s.addr));
    }

    /// Returns the receiver that waits longest, which waits no more.
    pub fn next_recv(&mut self) -> (next: Option<SignalTerminator<T>>)
        ensures
            final(self).same_but_waits(*old(self)),
            (final(self).waits(), answered(next)) == old(self).waits().next(true),
            final(self).queue == old(self).queue,
            final(self).capacity == old(self).capacity,
            final(self).recv_count == old(self).recv_count,
            final(self).send_count == old(self).send_count,
            final(self).ref_count == old(self).ref_count,
            if !old(self).recv_blocking {
                &&& next is None
                &&& !final(self).recv_blocking
                &&& final(self).wait_list == old(self).wait_list
            } else if old(self).wait_list@.len() == 0 {
                &&& next is None
                &&& !final(self).recv_blocking
                &&& final(self).wait_list@.len() == 0
            } else {
                &&& next == Some(old(self).wait_list@[0])
                &&& final(self).recv_blocking
                &&& final(self).wait_list@ == old(self).wait_list@.drop_first()
            },
    {
        if !self.recv_blocking {
            return None;
        }
        match self.wait_list.pop_front() {
            Some(terminator) => {
                assert(self.waits() =~= old(self).waits().next(true).0);
                Some(terminator)
            },
            None => {
                self.recv_blocking = false;
                assert(self.waits() =~= old(self).waits().next(true).0);
                None
            },
        }
    }

    /// Adds a receiver to those that wait.
    pub fn push_recv(&mut self, s: SignalTerminator<T>)
        ensures
            final(self).same_but_waits(*old(self)),
            final(self).waits() == old(self).waits().push(s.addr),
            final(self).queue == old(self).queue,
            final(self).capacity == old(self).capacity,
            final(self).recv_count == old(self).recv_count,
            final(self).send_count == old(self).send_count,
            final(self).ref_count == old(self).ref_count,
            final(self).recv_blocking == old(self).recv_blocking,
            final(self).wait_list@ == old(self).wait_list@.push(s),
    {
        self.wait_list.push_back(s);
        assert(self.waits() =~= old(self).waits().push(s.addr));
    }

    /// Returns where `sig` stands in the list of waiters, if it does: the first place, should there
    /// be more than one.
    fn position(&self, sig: &Signal<T>) -> (position: Option<usize>)
        ensures
            match position {
                Some(i) => {
                    &&& i < self.wait_list@.len()
                    &&& sig.address is Some
                    &&& self.waits().addrs.contains(sig.address->Some_0)
                    &&& self.waits().addrs.index_of_first(sig.address->Some_0) == Some(i as int)
                    &&& sig.address == Some(self.wait_list@[i as int].addr)
                    &&& forall|j: int|
                        0 <= j < i ==> sig.address != Some(#[trigger] self.wait_list@[j].addr)
                },
                None => {
                    &&& sig.address is None || !self.waits().addrs.contains(sig.address->Some_0)
                    &&& forall|j: int|
                        0 <= j < self.wait_list@.len() ==> sig.address != Some(
                            #[trigger] self.wait_list@[j].addr,
                        )
                },
            },
    {
        let mut i: usize = 0;
        while i < self.wait_list.len()
            invariant
                i <= self.wait_list@.len(),
                forall|j: int|
                    0 <= j < i ==> sig.address != Some(#[trigger] self.wait_list@[j].addr),
            decreases self.wait_list@.len() - i,
        {
            if self.wait_list[i].eq(sig) {
                proof {
                    let addrs = self.waits().addrs;
                    addrs.index_of_first_ensures(sig.address->Some_0);
                    assert(addrs[i as int] == sig.address->Some_0);
                }
                return Some(i);
            }
            i = i + 1;
        }
        None
    }

    /// Lets the sender of `sig` wait no more, if it waits. Tells whether it did.
    pub fn cancel_send_signal(&mut self, sig: &Signal<T>) -> (canceled: bool)
        ensures
            final(self).same_but_waits(*old(self)),
            canceled == old(self).waits().lists(false, sig.address),
            final(self).waits() == old(self).waits().cancel(false, sig.address),
            final(self).queue == old(self).queue,
            final(self).capacity == old(self).capacity,
            final(self).recv_count == old(self).recv_count,
            final(self).send_count == old(self).send_count,
            final(self).ref_count == old(self).ref_count,
            final(self).recv_blocking == old(self).recv_blocking,
            canceled <==> !old(self).recv_blocking && exists|i: int|
                0 <= i < old(self).wait_list@.len() && sig.address == Some(
                    #[trigger] old(self).wait_list@[i].addr,
                ),
            !canceled ==> final(self).wait_list == old(self).wait_list,
            canceled ==> exists|i: int|
                {
                    &&& 0 <= i < old(self).wait_list@.len()
                    &&& sig.address == Some(old(self).wait_list@[i].addr)
                    &&& forall|j: int|
                        0 <= j < i ==> sig.address != Some(#[trigger] old(self).wait_list@[j].addr)
                    &&& final(self).wait_list@ == #[trigger] old(self).wait_list@.remove(i)
                },
    {
        if !self.recv_blocking {
            if let Some(i) = self.position(sig) {
                self.wait_list.remove(i);
                assert(self.wait_list@ == old(self).wait_list@.remove(i as int));
                assert(self.waits() =~= old(self).waits().cancel(false, sig.address));
                return true;
            }
        }
        false
    }

    /// Lets the receiver of `sig` wait no more, if it waits. Tells whether it did.
    pub fn cancel_recv_signal(&mut self, sig: &Signal<T>) -> (canceled: bool)
        ensures
            final(self).same_but_waits(*old(self)),
            canceled == old(self).waits().lists(true, sig.address),
            final(self).waits() == old(self).waits().cancel(true, sig.address),
            final(self).queue == old(self).queue,
            final(self).capacity == old(self).capacity,
            final(self).recv_count == old(self).recv_count,
            final(self).send_count == old(self).send_count,
            final(self).ref_count == old(self).ref_count,
            final(self).recv_blocking == old(self).recv_blocking,
            canceled <==> old(self).recv_blocking && exists|i: int|
                0 <= i < old(self).wait_list@.len() && sig.address == Some(
                    #[trigger] old(self).wait_list@[i].addr,
                ),
            !canceled ==> final(self).wait_list == old(self).wait_list,
            canceled ==> exists|i: int|
                {
                    &&& 0 <= i < old(self).wait_list@.len()
                    &&& sig.address == Some(old(self).wait_list@[i].addr)
                    &&& forall|j: int|
                        0 <= j < i ==> sig.address != Some(#[trigger] old(self).wait_list@[j].addr)
                    &&& final(self).wait_list@ == #[trigger] old(self).wait_list@.remove(i)
                },
    {
        if self.recv_blocking {
            if let Some(i) = self.position(sig) {
                self.wait_list.remove(i);
                assert(self.wait_list@ == old(self).wait_list@.remove(i as int));
                assert(self.waits() =~= old(self).waits().cancel(true, sig.address));
                return true;
            }
        }
        false
    }

    /// Tells whether the sender of `sig` waits.
    pub fn send_signal_exists(&self, sig: &Signal<T>) -> (exists: bool)
        ensures
            exists == self.waits().lists(false, sig.address),
            exists <==> !self.recv_blocking && exists|i: int|
                0 <= i < self.wait_list@.len() && sig.address == Some(
                    #[trigger] self.wait_list@[i].addr,
                ),
    {
        if !self.recv_blocking {
            return self.position(sig).is_some();
        }
        false
    }

    /// Tells whether the receiver of `sig` waits.
    pub fn recv_signal_exists(&self, sig: &Signal<T>) -> (exists: bool)
        ensures
            exists == self.waits().lists(true, sig.address),
            exists <==> self.recv_blocking && exists|i: int|
                0 <= i < self.wait_list@.len() && sig.address == Some(
                    #[trigger] self.wait_list@[i].addr,
                ),
    {
        if self.recv_blocking {
            return self.position(sig).is_some();
        }
        false
    }

    /// Counts one more sender (`is_sender`) or receiver.
    pub fn inc_ref_count(&mut self, is_sender: bool)
        requires
            old(self).can_increment(is_sender),
        ensures
            *final(self) == old(self).incremented(is_sender),
            final(self).queue == old(self).queue,
            final(self).capacity == old(self).capacity,
            final(self).recv_blocking == old(self).recv_blocking,
            final(self).wait_list == old(self).wait_list,
            final(self).ref_count == old(self).ref_count + 1,
            final(self).send_count == if is_sender && old(self).send_count > 0 {
                old(self).send_count + 1
            } else {
                old(self).send_count as int
            },
            final(self).recv_count == if !is_sender && old(self).recv_count > 0 {
                old(self).recv_count + 1
            } else {
                old(self).recv_count as int
            },
    {
        if is_sender {
            if self.send_count > 0 {
                self.send_count += 1;
            }
        } else if self.recv_count > 0 {
            self.recv_count += 1;
        }
        self.ref_count += 1;
    }

    /// Counts one sender (`is_sender`) or receiver less, and notifies the waiters if that leaves
    /// them without an opposite. Tells whether that was the last handle of the channel, and
    /// returns the wakers of the tasks to be woken.
    pub fn dec_ref_count(&mut self, is_sender: bool, signals: &mut Memory<Signal<T>>) -> (left: (
        bool,
        Vec<Waker>,
    ))
        requires
            old(self).ref_count > 0,
            old(self).closes(is_sender) ==> old(self).waits().answerable(old(signals)@),
        ensures
            old(self).left_by(is_sender, old(signals)@, *final(self), final(signals)@, left.1@),
            left.0 == (old(self).ref_count == 1),
            final(self).queue == old(self).queue,
            final(self).capacity == old(self).capacity,
            final(self).recv_blocking == old(self).recv_blocking,
            final(self).ref_count == old(self).ref_count - 1,
            final(self).send_count == if is_sender && old(self).send_count > 0 {
                old(self).send_count - 1
            } else {
                old(self).send_count as int
            },
            final(self).recv_count == if !is_sender && old(self).recv_count > 0 {
                old(self).recv_count - 1
            } else {
                old(self).recv_count as int
            },
            old(self).closes(is_sender) ==> final(self).wait_list@.len() == 0,
            !old(self).closes(is_sender) ==> final(self).wait_list == old(self).wait_list,
    {
        let mut wakers: Vec<Waker> = Vec::new();
        if is_sender {
            if self.send_count > 0 {
                self.send_count -= 1;
                if self.send_count == 0 && self.recv_count != 0 {
                    wakers = self.terminate_signals(signals);
                }
            }
        } else if self.recv_count > 0 {
            self.recv_count -= 1;
            if self.recv_count == 0 && self.send_count != 0 {
                wakers = self.terminate_signals(signals);
            }
        }
        self.ref_count -= 1;
        (self.ref_count == 0, wakers)
    }
}

/// Values of type `T` fit into memory `capacity` at a time.
pub open spec fn fits<T>(capacity: usize) -> bool {
    capacity * vstd::layout::size_of::<T>() <= isize::MAX
}

/// Tells whether a queue for `capacity` values of type `T` can be reserved.
pub fn can_reserve<T>(capacity: usize) -> (fitting: bool)
    ensures
        fitting == fits::<T>(capacity),
        fitting == (capacity * vstd::layout::size_of::<T>() <= isize::MAX),
{
    match capacity.checked_mul(core::mem::size_of::<T>()) {
        Some(bytes) => bytes <= isize::MAX as usize,
        None => false,
    }
}

/// A handle to a channel, by the address of its shared part.
pub struct Internal<T> {
    internal: usize,
    marker: PhantomData<T>,
}

impl<T> Internal<T> {
    /// The address of the channel.
    pub closed spec fn addr(self) -> usize {
        self.internal
    }

    /// The channel lives in `heap`.
    pub open spec fn alive(self, heap: Heap<T>) -> bool {
        heap.channels@.contains_key(self.addr())
    }

    /// The channel lives in `heap`, and its lock is free.
    pub open spec fn free(self, heap: Heap<T>) -> bool {
        self.alive(heap) && heap.channels@[self.addr()].value is Some
    }

    /// The channel, if its lock is free.
    pub open spec fn channel(self, heap: Heap<T>) -> ChannelInternal<T> {
        heap.channels@[self.addr()].value->Some_0
    }

    /// `channels` with the free lock of this one round `channel`.
    pub open spec fn stored(
        self,
        channels: Map<usize, Mutex<ChannelInternal<T>>>,
        channel: ChannelInternal<T>,
    ) -> Map<usize, Mutex<ChannelInternal<T>>> {
        channels.insert(self.addr(), Mutex { value: Some(channel) })
    }

    /// A sender (`is_sender`) or receiver can leave the channel, whose lock is free.
    pub open spec fn can_leave(self, is_sender: bool, heap: Heap<T>) -> bool {
        &&& self.free(heap)
        &&& self.channel(heap).ref_count > 0
        &&& self.channel(heap).closes(is_sender) ==> self.channel(heap).waits().answerable(
            heap.signals@,
        )
    }

    /// What is left of `heap`, here `after`, when a sender (`is_sender`) or receiver has left the
    /// channel: the channel itself lives on unless that was its last handle.
    pub open spec fn left_by(
        self,
        is_sender: bool,
        heap: Heap<T>,
        after: Heap<T>,
        wakers: Seq<Waker>,
    ) -> bool {
        exists|channel: ChannelInternal<T>|
            {
                &&& #[trigger] self.channel(heap).left_by(
                    is_sender,
                    heap.signals@,
                    channel,
                    after.signals@,
                    wakers,
                )
                &&& after.channels@ == if self.channel(heap).ref_count == 1 {
                    heap.channels@.remove(self.addr())
                } else {
                    self.stored(heap.channels@, channel)
                }
            }
    }

    /// Returns the address of the channel.
    pub fn address(&self) -> (addr: usize)
        ensures
            addr == self.addr(),
    {
        self.internal
    }

    /// Ends the life of the channel, whose lock is free.
    pub fn drop(&self, heap: &mut Heap<T>)
        requires
            self.free(*old(heap)),
        ensures
            final(heap).channels@ == old(heap).channels@.remove(self.addr()),
            final(heap).signals == old(heap).signals,
    {
        let _channel = heap.channels.free(self.internal);
    }

    /// Returns a handle to a new channel, with one sender and one receiver. Memory for
    /// `capacity` values is asked for at once; a bounded channel holds no more than that.
    pub fn new(bounded: bool, capacity: usize, heap: &mut Heap<T>) -> (internal: Internal<T>)
        requires
            fits::<T>(capacity),
        ensures
            !internal.alive(*old(heap)),
            internal.free(*final(heap)),
            final(heap).channels@ == internal.stored(
                old(heap).channels@,
                internal.channel(*final(heap)),
            ),
            final(heap).signals == old(heap).signals,
            ({
                let channel = internal.channel(*final(heap));
                &&& channel.queue@.len() == 0
                &&& channel.waits() == (Waits { recv_blocking: false, addrs: Seq::empty() })
                &&& channel.capacity == if bounded { capacity } else { usize::MAX }
                &&& channel.recv_count == 1
                &&& channel.send_count == 1
                &&& channel.ref_count == 2
                &&& channel.counts(1, 1)
                &&& channel.nobody_waits_in_vain()
            }),
    {
        let mut abstract_capacity: usize = capacity;
        if !bounded {
            // act like there is no limit
            abstract_capacity = usize::MAX;
        }
        let wait_list_size: usize = if capacity == 0 { 8 } else { 4 };
        let channel = ChannelInternal {
            queue: VecDeque::with_capacity(capacity),
            recv_blocking: false,
            wait_list: VecDeque::with_capacity(wait_list_size),
            recv_count: 1,
            send_count: 1,
            capacity: abstract_capacity,
            // always has the default one sender and one receiver
            ref_count: 2,
        };
        assert(channel.waits().addrs =~= Seq::<usize>::empty());
        let addr = heap.channels.place(Mutex::new(channel));
        Internal { internal: addr, marker: PhantomData }
    }

    /// Counts one sender (`is_sender`) or receiver less, and ends the life of the channel with its
    /// last handle. Returns the wakers of the tasks to be woken.
    fn leave(&self, is_sender: bool, heap: &mut Heap<T>) -> (wakers: Vec<Waker>)
        requires
            self.can_leave(is_sender, *old(heap)),
        ensures
            self.left_by(is_sender, *old(heap), *final(heap), wakers@),
    {
        let mut guard = acquire_internal(self, heap);
        let (last, wakers) = guard.get_mut().dec_ref_count(is_sender, &mut heap.signals);
        let ghost channel = guard@;
        if unlikely(last) {
            release_internal(guard, heap);
            self.drop(heap);
        } else {
            release_internal(guard, heap);
        }
        proof {
            let channels = old(heap).channels@;
            let before = self.channel(*old(heap));
            assert(before.left_by(is_sender, old(heap).signals@, channel, heap.signals@, wakers@));
            assert(heap.channels@ =~= if before.ref_count == 1 {
                channels.remove(self.addr())
            } else {
                self.stored(channels, channel)
            });
        }
        wakers
    }

    /// Counts one more receiver, and returns its handle.
    pub fn clone_recv(&self, heap: &mut Heap<T>) -> (internal: Internal<T>)
        requires
            self.free(*old(heap)),
            self.channel(*old(heap)).can_increment(false),
        ensures
            internal.addr() == self.addr(),
            final(heap).channels@ == self.stored(
                old(heap).channels@,
                self.channel(*old(heap)).incremented(false),
            ),
            final(heap).signals == old(heap).signals,
    {
        let mut guard = acquire_internal(self, heap);
        guard.get_mut().inc_ref_count(false);
        release_internal(guard, heap);
        Internal { internal: self.internal, marker: PhantomData }
    }

    /// Counts one receiver less, and ends the life of the channel with its last handle. Returns
    /// the wakers of the tasks to be woken.
    pub fn drop_recv(&mut self, heap: &mut Heap<T>) -> (wakers: Vec<Waker>)
        requires
            old(self).can_leave(false, *old(heap)),
        ensures
            *final(self) == *old(self),
            old(self).left_by(false, *old(heap), *final(heap), wakers@),
    {
        self.leave(false, heap)
    }

    /// Counts one more sender, and returns its handle.
    pub fn clone_send(&self, heap: &mut Heap<T>) -> (internal: Internal<T>)
        requires
            self.free(*old(heap)),
            self.channel(*old(heap)).can_increment(true),
        ensures
            internal.addr() == self.addr(),
            final(heap).channels@ == self.stored(
                old(heap).channels@,
                self.channel(*old(heap)).incremented(true),
            ),
            final(heap).signals == old(heap).signals,
    {
        let mut guard = acquire_internal(self, heap);
        guard.get_mut().inc_ref_count(true);
        release_internal(guard, heap);
        Internal { internal: self.internal, marker: PhantomData }
    }

    /// Counts one sender less, and ends the life of the channel with its last handle. Returns the
    /// wakers of the tasks to be woken.
    pub fn drop_send(&mut self, heap: &mut Heap<T>) -> (wakers: Vec<Waker>)
        requires
            old(self).can_leave(true, *old(heap)),
        ensures
            *final(self) == *old(self),
            old(self).left_by(true, *old(heap), *final(heap), wakers@),
    {
        self.leave(true, heap)
    }

    /// Returns another handle, which is not counted.
    pub fn clone_unchecked(&self) -> (internal: Internal<T>)
        ensures
            internal.addr() == self.addr(),
    {
        Internal { internal: self.internal, marker: PhantomData }
    }

    /// Returns the channel behind its lock.
    pub fn deref<'a>(&self, heap: &'a Heap<T>) -> (mutex: &'a Mutex<ChannelInternal<T>>)
        requires
            self.alive(*heap),
        ensures
            *mutex == heap.channels@[self.addr()],
    {
        heap.channels.get(self.internal)
    }
}

/// Takes the lock of the channel, which is free, to operate on the channel.
pub fn acquire_internal<T>(internal: &Internal<T>, heap: &mut Heap<T>) -> (guard: MutexGuard<
    ChannelInternal<T>,
>)
    requires
        internal.free(*old(heap)),
    ensures
        guard.mutex() == internal.addr(),
        guard@ == internal.channel(*old(heap)),
        final(heap).channels@ == old(heap).channels@.insert(
            internal.addr(),
            Mutex { value: None },
        ),
        final(heap).signals == old(heap).signals,
{
    let value = heap.channels.get_mut(internal.internal).lock();
    MutexGuard::new(internal.internal, value)
}

/// Takes the lock of the channel, if it is free, to operate on the channel.
pub fn try_acquire_internal<T>(internal: &Internal<T>, heap: &mut Heap<T>) -> (guard: Option<
    MutexGuard<ChannelInternal<T>>,
>)
    requires
        internal.alive(*old(heap)),
    ensures
        guard is Some <==> internal.free(*old(heap)),
        guard matches Some(guard) ==> {
            &&& guard.mutex() == internal.addr()
            &&& guard@ == internal.channel(*old(heap))
        },
        final(heap).channels@ == old(heap).channels@.insert(
            internal.addr(),
            Mutex { value: None },
        ),
        final(heap).signals == old(heap).signals,
{
    match heap.channels.get_mut(internal.internal).try_lock() {
        Some(value) => Some(MutexGuard::new(internal.internal, value)),
        None => None,
    }
}

/// Gives the lock of a channel back, which its guard holds.
pub fn release_internal<T>(guard: MutexGuard<ChannelInternal<T>>, heap: &mut Heap<T>)
    requires
        old(heap).channels@.contains_key(guard.mutex()),
        old(heap).channels@[guard.mutex()].value is None,
    ensures
        final(heap).channels@ == old(heap).channels@.insert(
            guard.mutex(),
            Mutex { value: Some(guard@) },
        ),
        final(heap).signals == old(heap).signals,
{
    let (mutex, value) = guard.into_parts();
    heap.channels.get_mut(mutex).unlock(value);
}

} // verus!
