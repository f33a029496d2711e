use kanal::internal::{
    acquire_internal, can_reserve, release_internal, try_acquire_internal, ChannelInternal, Heap,
    Internal,
};
use kanal::mutex::Mutex;
use kanal::pointer::KanalPtr;
use kanal::signal::{KanalWaker, Signal, SignalTerminator};
use kanal::state::{LOCKED, TERMINATED};
use std::collections::VecDeque;
use std::sync::atomic::{AtomicUsize, Ordering};
use std::sync::Arc;
use std::task::{Wake, Waker};

struct Counter(AtomicUsize);

impl Wake for Counter {
    fn wake(self: Arc<Self>) {
        self.0.fetch_add(1, Ordering::SeqCst);
    }
}

fn channel() -> ChannelInternal<u32> {
    ChannelInternal {
        queue: VecDeque::new(),
        recv_blocking: false,
        wait_list: VecDeque::new(),
        capacity: 0,
        recv_count: 1,
        send_count: 1,
        ref_count: 2,
    }
}

fn receiver(heap: &mut Heap<u32>) -> usize {
    Signal::new_sync(KanalPtr::default()).pin(&mut heap.signals)
}

fn sender(heap: &mut Heap<u32>, data: u32) -> usize {
    Signal::new_sync(KanalPtr::filled(data)).pin(&mut heap.signals)
}

fn addrs(channel: &ChannelInternal<u32>) -> Vec<usize> {
    channel.wait_list.iter().map(|terminator| terminator.addr).collect()
}

#[test]
fn bounded_channel_has_its_capacity() {
    let mut heap: Heap<u32> = Heap::new();
    let internal = Internal::new(true, 4, &mut heap);
    let channel = internal.deref(&heap).value.as_ref().unwrap();
    assert_eq!(channel.capacity, 4);
    assert!(channel.queue.is_empty());
    assert!(channel.wait_list.is_empty());
    assert!(!channel.recv_blocking);
    assert_eq!(channel.recv_count, 1);
    assert_eq!(channel.send_count, 1);
    assert_eq!(channel.ref_count, 2);
}

#[test]
fn unbounded_channel_has_no_limit() {
    let mut heap: Heap<u32> = Heap::new();
    let internal = Internal::new(false, 4, &mut heap);
    assert_eq!(internal.deref(&heap).value.as_ref().unwrap().capacity, usize::MAX);
    let internal = Internal::new(true, 0, &mut heap);
    assert_eq!(internal.deref(&heap).value.as_ref().unwrap().capacity, 0);
}

#[test]
fn only_what_fits_can_be_reserved() {
    assert!(can_reserve::<u64>(0));
    assert!(can_reserve::<u64>(1 << 20));
    assert!(can_reserve::<u64>(isize::MAX as usize / 8));
    assert!(!can_reserve::<u64>(isize::MAX as usize / 8 + 1));
    assert!(!can_reserve::<u64>(usize::MAX));
    assert!(can_reserve::<()>(usize::MAX));
}

#[test]
fn waiters_are_served_in_order() {
    let mut channel = channel();
    for addr in [5, 3, 9] {
        channel.push_send(SignalTerminator::from(addr));
    }
    assert!(channel.next_recv().is_none());
    assert_eq!(channel.next_send().unwrap().addr, 5);
    channel.push_send(SignalTerminator::from(1));
    assert_eq!(channel.next_send().unwrap().addr, 3);
    assert_eq!(channel.next_send().unwrap().addr, 9);
    assert_eq!(channel.next_send().unwrap().addr, 1);
    assert!(!channel.recv_blocking);
    assert!(channel.next_send().is_none());
    assert!(channel.recv_blocking);
}

#[test]
fn the_list_changes_sides_when_it_is_empty() {
    let mut channel = channel();
    assert!(channel.next_recv().is_none());
    assert!(!channel.recv_blocking);
    assert!(channel.next_send().is_none());
    assert!(channel.recv_blocking);
    channel.push_recv(SignalTerminator::from(7));
    assert!(channel.next_send().is_none());
    assert_eq!(addrs(&channel), [7]);
    assert_eq!(channel.next_recv().unwrap().addr, 7);
    assert!(channel.next_recv().is_none());
    assert!(!channel.recv_blocking);
}

#[test]
fn cancel_removes_the_signal_and_keeps_the_order() {
    let mut heap: Heap<u32> = Heap::new();
    let mut channel = channel();
    let signals: Vec<usize> = (0..4).map(|data| sender(&mut heap, data)).collect();
    for addr in &signals[..3] {
        channel.push_send(heap.signals.get(*addr).get_terminator());
    }
    let second = heap.signals.get(signals[1]);
    assert!(channel.send_signal_exists(second));
    assert!(!channel.recv_signal_exists(second));
    assert!(!channel.cancel_recv_signal(second));
    assert!(channel.cancel_send_signal(second));
    assert_eq!(addrs(&channel), [signals[0], signals[2]]);
    assert!(!channel.send_signal_exists(second));
    assert!(!channel.cancel_send_signal(second));
    assert!(!channel.send_signal_exists(heap.signals.get(signals[3])));
    assert!(!channel.cancel_send_signal(heap.signals.get(signals[3])));
    assert_eq!(addrs(&channel), [signals[0], signals[2]]);
    // to wait and to give up changes nothing
    channel.push_send(heap.signals.get(signals[3]).get_terminator());
    assert!(channel.cancel_send_signal(heap.signals.get(signals[3])));
    assert_eq!(addrs(&channel), [signals[0], signals[2]]);
}

#[test]
fn cancel_of_a_receiver() {
    let mut heap: Heap<u32> = Heap::new();
    let mut channel = channel();
    assert!(channel.next_send().is_none());
    let addr = receiver(&mut heap);
    channel.push_recv(heap.signals.get(addr).get_terminator());
    let signal = heap.signals.get(addr);
    assert!(channel.recv_signal_exists(signal));
    assert!(!channel.send_signal_exists(signal));
    assert!(!channel.cancel_send_signal(signal));
    assert!(channel.cancel_recv_signal(signal));
    assert!(!channel.recv_signal_exists(signal));
    assert!(channel.wait_list.is_empty());
}

#[test]
fn unpinned_signal_waits_nowhere() {
    let mut channel = channel();
    channel.push_send(SignalTerminator::from(0));
    let signal = Signal::new_sync(KanalPtr::filled(1));
    assert!(!channel.send_signal_exists(&signal));
    assert!(!channel.cancel_send_signal(&signal));
}

#[test]
fn counts_go_up_and_down() {
    let mut heap: Heap<u32> = Heap::new();
    let mut channel = channel();
    channel.inc_ref_count(true);
    assert_eq!((channel.send_count, channel.recv_count, channel.ref_count), (2, 1, 3));
    channel.inc_ref_count(false);
    assert_eq!((channel.send_count, channel.recv_count, channel.ref_count), (2, 2, 4));
    let (last, wakers) = channel.dec_ref_count(true, &mut heap.signals);
    assert!(!last && wakers.is_empty());
    assert_eq!((channel.send_count, channel.recv_count, channel.ref_count), (1, 2, 3));
    assert!(!channel.dec_ref_count(false, &mut heap.signals).0);
    assert!(!channel.dec_ref_count(true, &mut heap.signals).0);
    assert_eq!((channel.send_count, channel.recv_count, channel.ref_count), (0, 1, 1));
    assert!(channel.dec_ref_count(false, &mut heap.signals).0);
    assert_eq!((channel.send_count, channel.recv_count, channel.ref_count), (0, 0, 0));
}

#[test]
fn closed_side_stays_closed() {
    let mut heap: Heap<u32> = Heap::new();
    let mut channel = channel();
    channel.send_count = 0;
    channel.inc_ref_count(true);
    assert_eq!((channel.send_count, channel.recv_count, channel.ref_count), (0, 1, 3));
    assert!(!channel.dec_ref_count(true, &mut heap.signals).0);
    assert_eq!((channel.send_count, channel.recv_count, channel.ref_count), (0, 1, 2));
}

#[test]
fn last_sender_notifies_the_receivers() {
    let mut heap: Heap<u32> = Heap::new();
    let mut channel = channel();
    assert!(channel.next_send().is_none());
    let thread = receiver(&mut heap);
    let sleeper = receiver(&mut heap);
    heap.signals.get_mut(sleeper).state.upgrade_lock();
    let count = Arc::new(Counter(AtomicUsize::new(0)));
    let mut task = Signal::new_async();
    task.register_waker(&Waker::from(count.clone()));
    let task = task.pin(&mut heap.signals);
    let stranger = receiver(&mut heap);
    for addr in [thread, task, sleeper] {
        channel.push_recv(heap.signals.get(addr).get_terminator());
    }
    let (last, wakers) = channel.dec_ref_count(true, &mut heap.signals);
    assert!(!last);
    assert!(channel.wait_list.is_empty());
    assert!(channel.recv_blocking);
    for addr in [thread, task, sleeper] {
        assert_eq!(heap.signals.get(addr).state.v, TERMINATED);
    }
    assert_eq!(heap.signals.get(stranger).state.v, LOCKED);
    assert!(matches!(&heap.signals.get(thread).waker, KanalWaker::Sync(wait) if !wait.woken));
    assert!(matches!(&heap.signals.get(sleeper).waker, KanalWaker::Sync(wait) if wait.woken));
    assert_eq!(wakers.len(), 1);
    for waker in wakers {
        waker.wake();
    }
    assert_eq!(count.0.load(Ordering::SeqCst), 1);
}

#[test]
fn last_receiver_notifies_the_senders() {
    let mut heap: Heap<u32> = Heap::new();
    let mut channel = channel();
    let addr = sender(&mut heap, 8);
    channel.push_send(heap.signals.get(addr).get_terminator());
    assert!(!channel.dec_ref_count(false, &mut heap.signals).0);
    assert!(channel.wait_list.is_empty());
    assert!(heap.signals.get(addr).is_terminated());
    assert_eq!(Signal::unpin(addr, &mut heap.signals).ptr.slot, Some(8));
}

#[test]
fn terminate_signals_empties_the_list() {
    let mut heap: Heap<u32> = Heap::new();
    let mut channel = channel();
    assert!(channel.terminate_signals(&mut heap.signals).is_empty());
    let addr = sender(&mut heap, 8);
    channel.push_send(heap.signals.get(addr).get_terminator());
    assert!(channel.terminate_signals(&mut heap.signals).is_empty());
    assert!(channel.wait_list.is_empty());
    assert!(heap.signals.get(addr).is_terminated());
}

#[test]
fn channel_ends_with_its_last_handle() {
    let mut heap: Heap<u32> = Heap::new();
    let mut sender = Internal::new(true, 1, &mut heap);
    let mut receiver = sender.clone_unchecked();
    let other = Internal::new(true, 2, &mut heap);
    assert_eq!(sender.address(), receiver.address());
    assert_ne!(sender.address(), other.address());
    let mut second = receiver.clone_recv(&mut heap);
    let mut third = sender.clone_send(&mut heap);
    assert_eq!(sender.deref(&heap).value.as_ref().unwrap().ref_count, 4);
    assert!(sender.drop_send(&mut heap).is_empty());
    assert!(receiver.drop_recv(&mut heap).is_empty());
    assert!(third.drop_send(&mut heap).is_empty());
    assert!(heap.channels.contains(second.address()));
    assert!(second.drop_recv(&mut heap).is_empty());
    assert!(!heap.channels.contains(second.address()));
    assert!(heap.channels.contains(other.address()));
}

#[test]
fn channel_ends_with_its_last_sender() {
    let mut heap: Heap<u32> = Heap::new();
    let mut sender = Internal::new(true, 1, &mut heap);
    let mut receiver = sender.clone_unchecked();
    assert!(receiver.drop_recv(&mut heap).is_empty());
    assert!(heap.channels.contains(sender.address()));
    assert!(sender.drop_send(&mut heap).is_empty());
    assert!(!heap.channels.contains(sender.address()));
}

#[test]
fn drop_frees_the_queue() {
    let data = Arc::new(());
    let mut heap: Heap<Arc<()>> = Heap::new();
    let internal = Internal::new(true, 1, &mut heap);
    let mut guard = acquire_internal(&internal, &mut heap);
    guard.get_mut().queue.push_back(data.clone());
    release_internal(guard, &mut heap);
    assert_eq!(Arc::strong_count(&data), 2);
    internal.drop(&mut heap);
    assert!(!heap.channels.contains(internal.address()));
    assert_eq!(Arc::strong_count(&data), 1);
}

#[test]
fn lock_excludes() {
    let mut heap: Heap<u32> = Heap::new();
    let internal = Internal::new(true, 1, &mut heap);
    let mut guard = acquire_internal(&internal, &mut heap);
    assert_eq!(guard.address(), internal.address());
    assert!(try_acquire_internal(&internal, &mut heap).is_none());
    guard.get_mut().queue.push_back(6);
    release_internal(guard, &mut heap);
    let guard = try_acquire_internal(&internal, &mut heap).unwrap();
    assert_eq!(guard.get().queue, [6]);
    assert!(try_acquire_internal(&internal, &mut heap).is_none());
}

#[test]
fn mutex_hands_its_value_out() {
    let mut mutex = Mutex::new(3);
    assert_eq!(mutex.try_lock(), Some(3));
    assert_eq!(mutex.try_lock(), None);
    mutex.unlock(4);
    assert_eq!(mutex.lock(), 4);
    assert_eq!(mutex.try_lock(), None);
}

#[test]
fn value_goes_from_sender_to_waiting_receiver() {
    let mut heap: Heap<u32> = Heap::new();
    let internal = Internal::new(true, 0, &mut heap);
    let addr = receiver(&mut heap);
    let mut guard = acquire_internal(&internal, &mut heap);
    assert!(guard.get_mut().next_send().is_none());
    guard.get_mut().push_recv(heap.signals.get(addr).get_terminator());
    let terminator = guard.get_mut().next_recv().unwrap();
    release_internal(guard, &mut heap);
    assert!(terminator.send(77, &mut heap.signals).is_none());
    assert_eq!(heap.signals.get_mut(addr).assume_init(), 77);
}
