//! What holds of a channel and its waiters across several operations.
use crate::internal::{ChannelInternal, Heap, Internal};
use crate::mutex::Mutex;
use crate::signal::{Answering, KanalWaker, Signal, SignalTerminator, WaitPhase};
use crate::state::{LOCKED_STARVATION, TERMINATED};
use crate::wait_laws::Answer;
use crate::waits::Waits;
use std::task::Waker;
use vstd::std_specs::cmp::PartialEqSpec;
use vstd::prelude::*;

verus! {

/// The waiters after `k` of the receivers (`recv`) or senders have been served.
pub open spec fn after_serving(waits: Waits, recv: bool, k: nat) -> Waits
    decreases k,
{
    if k == 0 {
        waits
    } else {
        after_serving(waits, recv, (k - 1) as nat).next(recv).0
    }
}

/// Those that wait are served in the order in which they have come: the one that has `k` before
/// it is served after `k` others.
pub proof fn law_first_come_first_served(waits: Waits, k: nat)
    requires
        k < waits.addrs.len(),
    ensures
        after_serving(waits, waits.recv_blocking, k).next(waits.recv_blocking).1 == Some(
            waits.addrs[k as int],
        ),
{
    lemma_after_serving(waits, k);
}

proof fn lemma_after_serving(waits: Waits, k: nat)
    requires
        k <= waits.addrs.len(),
    ensures
        after_serving(waits, waits.recv_blocking, k) == (Waits {
            addrs: waits.addrs.skip(k as int),
            ..waits
        }),
    decreases k,
{
    if k == 0 {
        assert(waits.addrs.skip(0) =~= waits.addrs);
    } else {
        lemma_after_serving(waits, (k - 1) as nat);
        assert(waits.addrs.skip(k - 1).drop_first() =~= waits.addrs.skip(k as int));
    }
}

/// Whoever finds nobody to serve can wait there: the list is then that of the other side. This is
/// how a receiver that has found no sender comes to wait, and the other way round.
pub proof fn law_list_is_left_to_the_other_side(waits: Waits, recv: bool)
    ensures
        waits.next(recv).1 is None <==> !(waits.recv_blocking == recv && waits.addrs.len() > 0),
        waits.next(recv).1 is None ==> {
            &&& waits.next(recv).0.recv_blocking == !recv
            &&& waits.next(recv).0.addrs == waits.addrs
        },
{
}

/// To begin to wait and to give it up at once changes nothing.
pub proof fn law_cancel_undoes_push(waits: Waits, addr: usize)
    requires
        !waits.addrs.contains(addr),
    ensures
        waits.push(addr).lists(waits.recv_blocking, Some(addr)),
        waits.push(addr).cancel(waits.recv_blocking, Some(addr)) == waits,
{
    let pushed = waits.push(addr);
    assert(pushed.addrs[waits.addrs.len() as int] == addr);
    pushed.addrs.index_of_first_ensures(addr);
    assert(pushed.addrs.remove(waits.addrs.len() as int) =~= waits.addrs);
}

/// Whoever gives up waiting is gone from the list, and the others keep their order.
pub proof fn law_cancel_keeps_the_others_in_order(waits: Waits, addr: usize)
    requires
        waits.addrs.no_duplicates(),
    ensures
        !waits.cancel(waits.recv_blocking, Some(addr)).lists(waits.recv_blocking, Some(addr)),
        waits.cancel(waits.recv_blocking, Some(addr)) == (Waits {
            addrs: waits.addrs.filter(|other: usize| other != addr),
            ..waits
        }),
{
    waits.addrs.index_of_first_ensures(addr);
    if waits.addrs.contains(addr) {
        let i = waits.addrs.index_of_first(addr)->Some_0;
        lemma_filter_one(waits.addrs, addr, i);
        assert(!waits.addrs.remove(i).contains(addr));
    } else {
        lemma_filter_none(waits.addrs, addr);
    }
}

proof fn lemma_filter_none(s: Seq<usize>, addr: usize)
    requires
        !s.contains(addr),
    ensures
        s.filter(|other: usize| other != addr) == s,
    decreases s.len(),
{
    reveal(Seq::filter);
    if s.len() > 0 {
        assert(s.last() != addr);
        assert(!s.drop_last().contains(addr)) by {
            if s.drop_last().contains(addr) {
                let j = choose|j: int| 0 <= j < s.drop_last().len() && s.drop_last()[j] == addr;
                assert(s[j] == addr);
            }
        }
        lemma_filter_none(s.drop_last(), addr);
        assert(s.drop_last().push(s.last()) =~= s);
    }
}

proof fn lemma_filter_one(s: Seq<usize>, addr: usize, i: int)
    requires
        s.no_duplicates(),
        0 <= i < s.len(),
        s[i] == addr,
    ensures
        s.filter(|other: usize| other != addr) == s.remove(i),
    decreases s.len(),
{
    reveal(Seq::filter);
    let rest = s.drop_last();
    if i == s.len() - 1 {
        assert(!rest.contains(addr));
        lemma_filter_none(rest, addr);
        assert(s.remove(i) =~= rest);
    } else {
        lemma_filter_one(rest, addr, i);
        assert(s.remove(i) =~= rest.remove(i).push(s.last()));
    }
}

/// One more waiter on the side whose list it is keeps the list well-formed.
pub proof fn law_push_keeps_well_formed<T>(
    waits: Waits,
    signals: Map<usize, Signal<T>>,
    addr: usize,
)
    requires
        waits.well_formed(signals),
        !waits.addrs.contains(addr),
        signals.contains_key(addr),
        signals[addr].answerable(),
        signals[addr].address == Some(addr),
        signals[addr].ptr.slot is None <==> waits.recv_blocking,
    ensures
        waits.push(addr).well_formed(signals),
{
}

/// What is served can be answered, and is a receiver, whose place is empty, or a sender, whose
/// place holds its value, as asked for. However it is answered, the list of those that still wait
/// is well-formed.
pub proof fn law_served_can_be_answered<T>(
    waits: Waits,
    signals: Map<usize, Signal<T>>,
    recv: bool,
    answer: Answer<T>,
)
    requires
        waits.well_formed(signals),
    ensures
        waits.next(recv).0.well_formed(signals),
        waits.next(recv).1 matches Some(addr) ==> {
            &&& signals.contains_key(addr)
            &&& signals[addr].answerable()
            &&& signals[addr].ptr.slot is None <==> recv
            &&& waits.next(recv).0.well_formed(
                signals.insert(addr, answer.applied(signals[addr])),
            )
        },
{
    let (rest, next) = waits.next(recv);
    if next is Some {
        assert forall|i: int| 0 <= i < rest.addrs.len() implies #[trigger] rest.addrs[i]
            == waits.addrs[i + 1] by {}
        assert(!rest.addrs.contains(waits.addrs[0]));
    }
}

/// To give up waiting keeps the list well-formed.
pub proof fn law_cancel_keeps_well_formed<T>(
    waits: Waits,
    signals: Map<usize, Signal<T>>,
    recv: bool,
    addr: Option<usize>,
)
    requires
        waits.well_formed(signals),
    ensures
        waits.cancel(recv, addr).well_formed(signals),
{
    if waits.lists(recv, addr) {
        waits.addrs.index_of_first_ensures(addr->Some_0);
        let k = waits.addrs.index_of_first(addr->Some_0)->Some_0;
        let rest = waits.cancel(recv, addr);
        assert forall|i: int| 0 <= i < rest.addrs.len() implies #[trigger] rest.addrs[i]
            == waits.addrs[if i < k { i } else { i + 1 }] by {}
    }
}

/// A waiter that takes a step of its wait keeps the list well-formed.
pub proof fn law_wait_keeps_well_formed<T>(
    waits: Waits,
    signals: Map<usize, Signal<T>>,
    addr: usize,
    phase: WaitPhase,
)
    requires
        waits.well_formed(signals),
        signals.contains_key(addr),
    ensures
        waits.well_formed(signals.insert(addr, signals[addr].wait_step(phase).0)),
{
}

/// A signal that comes into memory, where no other was, keeps the list well-formed, and so does
/// one that leaves it and is not on the list.
pub proof fn law_memory_keeps_well_formed<T>(
    waits: Waits,
    signals: Map<usize, Signal<T>>,
    addr: usize,
    signal: Signal<T>,
)
    requires
        waits.well_formed(signals),
        !waits.addrs.contains(addr),
    ensures
        waits.well_formed(signals.insert(addr, signal)),
        waits.well_formed(signals.remove(addr)),
{
}

/// A task that registers a waker for its signal keeps the list well-formed.
pub proof fn law_register_keeps_well_formed<T>(
    waits: Waits,
    signals: Map<usize, Signal<T>>,
    addr: usize,
    waker: Waker,
)
    requires
        waits.well_formed(signals),
        signals.contains_key(addr),
    ensures
        waits.well_formed(
            signals.insert(addr, Signal { waker: KanalWaker::Async(waker), ..signals[addr] }),
        ),
{
}

/// Senders and receivers that come and go keep the list of their channel well-formed, and those of
/// other channels, whose waiters are others.
pub proof fn law_users_keep_well_formed<T>(
    channel: ChannelInternal<T>,
    is_sender: bool,
    signals: Map<usize, Signal<T>>,
    after: ChannelInternal<T>,
    signals_after: Map<usize, Signal<T>>,
    wakers: Seq<Waker>,
    other: Waits,
)
    requires
        channel.waits().well_formed(signals),
        channel.left_by(is_sender, signals, after, signals_after, wakers),
        other.well_formed(signals),
        forall|i: int|
            0 <= i < other.addrs.len() ==> !channel.waits().addrs.contains(
                #[trigger] other.addrs[i],
            ),
    ensures
        channel.incremented(is_sender).waits().well_formed(signals),
        after.waits().well_formed(signals_after),
        other.well_formed(signals_after),
{
    assert(channel.incremented(is_sender).waits() =~= channel.waits());
    if !channel.closes(is_sender) {
        assert(after.waits() =~= channel.waits());
    }
}

/// Each signal in memory knows its address, whatever is done: signals come and go, waiters take
/// their steps, register wakers and set their places, and signals are answered, in one go or access
/// by access.
pub proof fn law_signals_know_their_addresses<T>(
    signals: Map<usize, Signal<T>>,
    addr: usize,
    signal: Signal<T>,
    phase: WaitPhase,
    waker: KanalWaker,
    slot: Option<T>,
    answer: Answer<T>,
    answering: Answering<T>,
    clone: Waker,
    addrs: Seq<usize>,
)
    requires
        crate::signal::pinned(signals),
    ensures
        crate::signal::pinned(signals.insert(addr, Signal { address: Some(addr), ..signal })),
        crate::signal::pinned(signals.remove(addr)),
        crate::signal::pinned(crate::internal::terminated(signals, addrs)),
        signals.contains_key(addr) ==> {
            let here = signals[addr];
            &&& crate::signal::pinned(signals.insert(addr, here.wait_step(phase).0))
            &&& crate::signal::pinned(signals.insert(addr, Signal { waker, ..here }))
            &&& crate::signal::pinned(signals.insert(addr, here.holding(slot)))
            &&& crate::signal::pinned(signals.insert(addr, answer.applied(here)))
            &&& crate::signal::pinned(signals.insert(addr, here.answer_step(answering, clone).0))
        },
{
}

/// A terminator is that of the signal at its address, and of no other signal in memory.
pub proof fn law_terminator_names_one_signal<T>(
    signals: Map<usize, Signal<T>>,
    terminator: SignalTerminator<T>,
    addr: usize,
)
    requires
        crate::signal::pinned(signals),
        signals.contains_key(addr),
    ensures
        terminator.eq_spec(&signals[addr]) <==> terminator.addr == addr,
{
}

/// The counts stay right when a sender (`is_sender`) or receiver is cloned.
pub proof fn law_clone_keeps_counts<T>(
    channel: ChannelInternal<T>,
    is_sender: bool,
    senders: nat,
    receivers: nat,
)
    requires
        channel.counts(senders, receivers),
        channel.can_increment(is_sender),
    ensures
        is_sender ==> channel.incremented(is_sender).counts(senders + 1, receivers),
        !is_sender ==> channel.incremented(is_sender).counts(senders, receivers + 1),
{
}

/// The counts stay right when a sender (`is_sender`) or receiver leaves, and the channel ends with
/// the last of them all and no sooner.
pub proof fn law_channel_ends_with_its_last_handle<T>(
    internal: Internal<T>,
    is_sender: bool,
    heap: Heap<T>,
    after: Heap<T>,
    wakers: Seq<Waker>,
    senders: nat,
    receivers: nat,
)
    requires
        internal.can_leave(is_sender, heap),
        internal.channel(heap).counts(senders, receivers),
        is_sender ==> senders > 0,
        !is_sender ==> receivers > 0,
        internal.left_by(is_sender, heap, after, wakers),
    ensures
        internal.alive(after) <==> senders + receivers > 1,
        internal.alive(after) ==> {
            &&& internal.free(after)
            &&& is_sender ==> internal.channel(after).counts((senders - 1) as nat, receivers)
            &&& !is_sender ==> internal.channel(after).counts(senders, (receivers - 1) as nat)
        },
{
}

/// What the users of a channel do with its handles.
pub enum Use {
    /// A sender (`true`) or receiver is cloned.
    Clone(bool),
    /// A sender (`true`) or receiver is dropped.
    Drop(bool),
}

/// How many live senders (`is_sender`) or receivers a channel has that was made with one and has
/// then been used like this.
pub open spec fn live(uses: Seq<Use>, is_sender: bool) -> int
    decreases uses.len(),
{
    if uses.len() == 0 {
        1
    } else {
        let before = live(uses.drop_last(), is_sender);
        if uses.last() == Use::Clone(is_sender) {
            before + 1
        } else if uses.last() == Use::Drop(is_sender) {
            before - 1
        } else {
            before
        }
    }
}

/// One use of the channel has led from `heap` to `after`, as [`Internal::clone_send`],
/// [`Internal::clone_recv`], [`Internal::drop_send`] and [`Internal::drop_recv`] do it.
pub open spec fn used<T>(internal: Internal<T>, one: Use, heap: Heap<T>, after: Heap<T>) -> bool {
    match one {
        Use::Clone(is_sender) => {
            &&& internal.free(heap)
            &&& internal.channel(heap).can_increment(is_sender)
            &&& after.channels@ == internal.stored(
                heap.channels@,
                internal.channel(heap).incremented(is_sender),
            )
        },
        Use::Drop(is_sender) => {
            &&& internal.can_leave(is_sender, heap)
            &&& exists|wakers: Seq<Waker>| internal.left_by(is_sender, heap, after, wakers)
        },
    }
}

/// From a new channel on, whatever its users do: as long as one handle is left, the channel lives,
/// its lock is free, and its counts are right. With the last handle it ends, and no sooner; its
/// lock was free then.
pub proof fn law_channel_is_freed_once<T>(
    internal: Internal<T>,
    uses: Seq<Use>,
    heaps: Seq<Heap<T>>,
)
    requires
        heaps.len() == uses.len() + 1,
        internal.free(heaps[0]),
        internal.channel(heaps[0]).counts(1, 1),
        forall|i: int|
            0 <= i < uses.len() ==> used(internal, #[trigger] uses[i], heaps[i], heaps[i + 1]),
        forall|i: int, is_sender: bool|
            0 <= i <= uses.len() ==> #[trigger] live(uses.take(i), is_sender) >= 0,
    ensures
        internal.alive(heaps.last()) <==> live(uses, true) + live(uses, false) > 0,
        internal.alive(heaps.last()) ==> {
            &&& internal.free(heaps.last())
            &&& internal.channel(heaps.last()).counts(
                live(uses, true) as nat,
                live(uses, false) as nat,
            )
        },
    decreases uses.len(),
{
    assert(uses.take(uses.len() as int) =~= uses);
    assert(live(uses.take(uses.len() as int), true) >= 0);
    assert(live(uses.take(uses.len() as int), false) >= 0);
    if uses.len() > 0 {
        let before = uses.drop_last();
        let last = before.len() as int;
        assert forall|i: int, is_sender: bool| 0 <= i <= before.len() implies #[trigger] live(
            before.take(i),
            is_sender,
        ) >= 0 by {
            assert(before.take(i) =~= uses.take(i));
            assert(live(uses.take(i), is_sender) >= 0);
        }
        assert forall|i: int| 0 <= i < before.len() implies used(
            internal,
            #[trigger] before[i],
            heaps.drop_last()[i],
            heaps.drop_last()[i + 1],
        ) by {
            assert(used(internal, uses[i], heaps[i], heaps[i + 1]));
        }
        law_channel_is_freed_once(internal, before, heaps.drop_last());
        assert(used(internal, uses[last], heaps[last], heaps[last + 1]));
        let senders = live(before, true) as nat;
        let receivers = live(before, false) as nat;
        match uses[last] {
            Use::Clone(is_sender) => {
                law_clone_keeps_counts(
                    internal.channel(heaps[last]),
                    is_sender,
                    senders,
                    receivers,
                );
            },
            Use::Drop(is_sender) => {
                let heap = heaps[last];
                let after = heaps[last + 1];
                let wakers = choose|wakers: Seq<Waker>|
                    internal.left_by(is_sender, heap, after, wakers);
                law_channel_ends_with_its_last_handle(
                    internal,
                    is_sender,
                    heap,
                    after,
                    wakers,
                    senders,
                    receivers,
                );
            },
        }
    }
}

/// To clone a handle and to drop it again changes nothing.
pub proof fn law_drop_undoes_clone<T>(channel: ChannelInternal<T>, is_sender: bool)
    requires
        channel.can_increment(is_sender),
    ensures
        !channel.incremented(is_sender).closes(is_sender),
        channel.incremented(is_sender).decremented(is_sender) == channel,
{
}

/// A side that is closed stays closed, whoever comes or goes.
pub proof fn law_closed_stays_closed<T>(channel: ChannelInternal<T>, is_sender: bool)
    requires
        channel.can_increment(is_sender),
    ensures
        channel.send_count == 0 ==> channel.incremented(is_sender).send_count == 0
            && channel.decremented(is_sender).send_count == 0,
        channel.recv_count == 0 ==> channel.incremented(is_sender).recv_count == 0
            && channel.decremented(is_sender).recv_count == 0,
{
}

/// When the last sender or the last receiver leaves the others, nobody is left waiting: each that
/// waited has been terminated and is told so, a thread that slept has been called, and of each
/// task there is a waker to be woken.
pub proof fn law_closing_notifies_everybody<T>(
    channel: ChannelInternal<T>,
    is_sender: bool,
    signals: Map<usize, Signal<T>>,
    after: ChannelInternal<T>,
    signals_after: Map<usize, Signal<T>>,
    wakers: Seq<Waker>,
    i: int,
)
    requires
        channel.closes(is_sender),
        channel.waits().answerable(signals),
        channel.left_by(is_sender, signals, after, signals_after, wakers),
        0 <= i < channel.waits().addrs.len(),
    ensures
        after.waits().addrs.len() == 0,
        ({
            let addr = channel.waits().addrs[i];
            let signal = signals_after[addr];
            &&& signals_after.contains_key(addr)
            &&& signal.state.v == TERMINATED
            &&& signal.ptr == signals[addr].ptr
            &&& signals[addr].waker is Sync && signals[addr].state.v == LOCKED_STARVATION
                ==> signal.called()
            &&& signals[addr].waker matches KanalWaker::Async(task) ==> exists|k: int|
                0 <= k < wakers.len() && cloned(task, #[trigger] wakers[k])
        }),
{
    let addrs = channel.waits().addrs;
    assert(addrs.contains(addrs[i]));
    if let KanalWaker::Async(task) = signals[addrs[i]].waker {
        let all = crate::internal::tasks(signals, addrs);
        lemma_task_listed(signals, addrs, i);
        let k = choose|k: int| 0 <= k < all.len() && all[k] == task;
        assert(cloned(all[k], wakers[k]));
    }
}

proof fn lemma_task_listed<T>(signals: Map<usize, Signal<T>>, addrs: Seq<usize>, i: int)
    requires
        0 <= i < addrs.len(),
        signals[addrs[i]].waker is Async,
    ensures
        crate::internal::tasks(signals, addrs).contains(signals[addrs[i]].waker->Async_0),
    decreases addrs.len(),
{
    let before = crate::internal::tasks(signals, addrs.drop_last());
    let task = signals[addrs[i]].waker->Async_0;
    if i < addrs.len() - 1 {
        lemma_task_listed(signals, addrs.drop_last(), i);
        let k = choose|k: int| 0 <= k < before.len() && before[k] == task;
        assert(crate::internal::tasks(signals, addrs)[k] == task);
    } else {
        assert(before.push(task)[before.len() as int] == task);
    }
}

/// Signals on which nobody in the channel waits are left alone when a sender or receiver leaves.
pub proof fn law_leaving_touches_only_waiters<T>(
    channel: ChannelInternal<T>,
    is_sender: bool,
    signals: Map<usize, Signal<T>>,
    after: ChannelInternal<T>,
    signals_after: Map<usize, Signal<T>>,
    wakers: Seq<Waker>,
    addr: usize,
)
    requires
        channel.left_by(is_sender, signals, after, signals_after, wakers),
        !channel.waits().addrs.contains(addr),
    ensures
        signals_after.contains_key(addr) == signals.contains_key(addr),
        signals.contains_key(addr) ==> signals_after[addr] == signals[addr],
{
}

/// Nobody waits on a channel one side of which is closed: this stays so, whoever comes or goes.
pub proof fn law_nobody_waits_in_vain<T>(
    channel: ChannelInternal<T>,
    is_sender: bool,
    signals: Map<usize, Signal<T>>,
    after: ChannelInternal<T>,
    signals_after: Map<usize, Signal<T>>,
    wakers: Seq<Waker>,
)
    requires
        channel.nobody_waits_in_vain(),
        channel.can_increment(is_sender),
        channel.left_by(is_sender, signals, after, signals_after, wakers),
    ensures
        channel.incremented(is_sender).nobody_waits_in_vain(),
        after.nobody_waits_in_vain(),
{
}

/// Other channels do not notice when a sender or receiver leaves this one.
pub proof fn law_other_channels_unchanged<T>(
    internal: Internal<T>,
    is_sender: bool,
    heap: Heap<T>,
    after: Heap<T>,
    wakers: Seq<Waker>,
    other: Internal<T>,
)
    requires
        internal.left_by(is_sender, heap, after, wakers),
        other.addr() != internal.addr(),
    ensures
        other.alive(after) == other.alive(heap),
        other.alive(heap) ==> after.channels@[other.addr()] == heap.channels@[other.addr()],
{
}

/// While the lock of a channel is held nobody else gets it, and the locks of other channels are
/// not affected; when it is given back, everybody finds the channel as its holder has left it.
pub proof fn law_lock_excludes<T>(
    internal: Internal<T>,
    heap: Heap<T>,
    held: Heap<T>,
    released: Heap<T>,
    channel: ChannelInternal<T>,
    other: Internal<T>,
)
    requires
        internal.free(heap),
        held.channels@ == heap.channels@.insert(internal.addr(), Mutex { value: None }),
        released.channels@ == held.channels@.insert(
            internal.addr(),
            Mutex { value: Some(channel) },
        ),
    ensures
        other.addr() == internal.addr() ==> {
            &&& other.alive(held) && !other.free(held)
            &&& other.free(released) && other.channel(released) == channel
        },
        other.addr() != internal.addr() ==> {
            &&& other.free(held) == other.free(heap)
            &&& other.free(released) == other.free(heap)
            &&& other.channel(released) == other.channel(heap)
        },
        released.channels@ == internal.stored(heap.channels@, channel),
{
    assert(released.channels@ =~= internal.stored(heap.channels@, channel));
}

} // verus!
