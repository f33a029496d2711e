use kanal::memory::Memory;
use kanal::pointer::KanalPtr;
use kanal::signal::{
    AnswerPhase, Answering, AsyncWaitPhase, KanalWaker, Pause, Signal, SignalTerminator, Step,
    TimeoutPhase, WaitPhase,
};
use kanal::state::{State, LOCKED, LOCKED_STARVATION, TERMINATED, UNLOCKED};
use kanal::sync::SysWait;
use std::sync::atomic::{AtomicUsize, Ordering};
use std::sync::Arc;
use std::task::{Poll, Wake, Waker};

struct Counter(AtomicUsize);

impl Wake for Counter {
    fn wake(self: Arc<Self>) {
        self.0.fetch_add(1, Ordering::SeqCst);
    }
}

fn counter() -> (Arc<Counter>, Waker) {
    let counter = Arc::new(Counter(AtomicUsize::new(0)));
    (counter.clone(), Waker::from(counter))
}

fn is_called<T>(signal: &Signal<T>) -> bool {
    match &signal.waker {
        KanalWaker::Sync(wait) => wait.woken,
        _ => panic!("not a thread"),
    }
}

#[test]
fn states_are_ordered() {
    assert!(UNLOCKED < LOCKED);
    assert!(TERMINATED < LOCKED);
    assert!(LOCKED < LOCKED_STARVATION);
    assert_ne!(UNLOCKED, TERMINATED);
}

#[test]
fn state_changes() {
    let mut state = State::locked();
    assert_eq!(state.relaxed(), LOCKED);
    assert!(state.try_change(UNLOCKED));
    assert_eq!(state.acquire(), UNLOCKED);
    assert!(!state.try_change(TERMINATED));
    assert_eq!(state.acquire(), UNLOCKED);
    assert!(!state.upgrade_lock());
    state.force(LOCKED);
    assert!(state.upgrade_lock());
    assert_eq!(state.relaxed(), LOCKED_STARVATION);
    assert!(state.upgrade_lock());
    assert!(!state.try_change(UNLOCKED));
    state.force(TERMINATED);
    assert_eq!(state.relaxed(), TERMINATED);
}

#[test]
fn ptr_gives_back_what_was_written() {
    let mut ptr = KanalPtr::default();
    assert_eq!(ptr.slot, None);
    ptr.write("a".to_string());
    assert_eq!(ptr.read(), "a");
    assert_eq!(ptr.slot, None);
    assert_eq!(KanalPtr::filled(3).read(), 3);
}

#[test]
fn sys_wait_keeps_the_call() {
    let mut wait = SysWait::new();
    assert!(!wait.woken);
    wait.wake();
    assert!(wait.woken);
}

#[test]
fn signals_are_pinned_and_unpinned() {
    let mut signals = Memory::new();
    let a = Signal::new_sync(KanalPtr::filled("a")).pin(&mut signals);
    let b = Signal::new_sync(KanalPtr::filled("b")).pin(&mut signals);
    assert_ne!(a, b);
    assert_eq!(signals.get(a).address, Some(a));
    assert_eq!(signals.get(b).address, Some(b));
    signals.get_mut(a).set_ptr(KanalPtr::filled("c"));
    assert_eq!(signals.get(b).ptr.slot, Some("b"));
    let terminator = signals.get(a).get_terminator();
    let mut signal = Signal::unpin(a, &mut signals);
    assert_eq!(signal.address, None);
    assert!(terminator != signal);
    assert_eq!(signal.assume_init(), "c");
    assert!(!signals.contains(a));
    assert!(signals.contains(b));
    let d = Signal::new_sync(KanalPtr::filled("d")).pin(&mut signals);
    assert_ne!(d, b);
    assert_eq!(signals.get(d).address, Some(d));
    assert_eq!(signals.get(d).ptr.slot, Some("d"));
    assert!(!signals.contains(usize::MAX));
}

#[test]
fn new_signals_are_pending() {
    let signal = Signal::<u8>::new_async();
    assert!(matches!(signal.waker, KanalWaker::Unregistered));
    assert_eq!(signal.ptr.slot, None);
    assert_eq!(signal.poll(), Poll::Pending);
    let signal = Signal::new_async_ptr(KanalPtr::filled(7u8));
    assert!(matches!(signal.waker, KanalWaker::Unregistered));
    assert_eq!(signal.ptr.slot, Some(7));
    let signal = Signal::new_sync(KanalPtr::filled(8u8));
    assert!(!is_called(&signal));
    assert_eq!(signal.ptr.slot, Some(8));
    assert_eq!(signal.state.v, LOCKED);
    assert!(!signal.is_terminated());
}

#[test]
fn set_ptr_replaces_the_place() {
    let mut signal = Signal::new_async();
    signal.set_ptr(KanalPtr::filled(5));
    assert_eq!(signal.assume_init(), 5);
    assert_eq!(signal.ptr.slot, None);
    signal.set_ptr(KanalPtr::filled(6));
    signal.load_and_drop();
    assert_eq!(signal.ptr.slot, None);
}

#[test]
fn load_and_drop_drops_once() {
    let data = Arc::new(());
    let mut signal = Signal::new_sync(KanalPtr::filled(data.clone()));
    assert_eq!(Arc::strong_count(&data), 2);
    signal.load_and_drop();
    assert_eq!(Arc::strong_count(&data), 1);
}

#[test]
fn receiver_gets_what_is_sent() {
    let mut signal = Signal::new_sync(KanalPtr::default());
    assert!(signal.send(42).is_none());
    assert_eq!(signal.poll(), Poll::Ready(UNLOCKED));
    assert!(matches!(signal.wait(WaitPhase::Polling(0)), Step::Done(true)));
    // the thread is awake, so that nobody calls it
    assert!(!is_called(&signal));
    assert_eq!(signal.assume_init(), 42);
}

#[test]
fn sender_learns_that_its_value_is_taken() {
    let mut signal = Signal::new_sync(KanalPtr::filled(42));
    let (data, waker) = signal.recv();
    assert_eq!(data, 42);
    assert!(waker.is_none());
    assert_eq!(signal.ptr.slot, None);
    assert!(matches!(signal.wait(WaitPhase::Polling(5)), Step::Done(true)));
}

#[test]
fn terminated_signal_keeps_its_value() {
    let mut signal = Signal::new_sync(KanalPtr::filled(42));
    assert!(signal.terminate().is_none());
    assert!(signal.is_terminated());
    assert_eq!(signal.poll(), Poll::Ready(TERMINATED));
    assert_eq!(signal.ptr.slot, Some(42));
    assert!(matches!(signal.wait(WaitPhase::Polling(0)), Step::Done(false)));
    assert!(matches!(signal.wait(WaitPhase::Settled), Step::Done(false)));
    assert!(matches!(signal.async_blocking_wait(AsyncWaitPhase::Polling(0)), Step::Done(false)));
    assert!(matches!(signal.wait_timeout(TimeoutPhase::Timed, 0, 9), Step::Done(false)));
}

#[test]
fn thread_yields_then_sleeps_until_it_is_called() {
    let mut signal = Signal::new_sync(KanalPtr::default());
    let mut phase = WaitPhase::Polling(0);
    let mut yields = 0;
    loop {
        match signal.wait(phase) {
            Step::Next { pause: Pause::Yield, phase: next } => {
                yields += 1;
                phase = next;
            }
            Step::Next { pause: Pause::Skip, phase: next } => {
                phase = next;
                break;
            }
            _ => panic!("neither a yield nor the way to sleep"),
        }
    }
    assert_eq!(yields, 256);
    assert!(matches!(phase, WaitPhase::Locking));
    assert!(matches!(
        signal.wait(phase),
        Step::Next { pause: Pause::Park, phase: WaitPhase::Parked }
    ));
    assert_eq!(signal.state.v, LOCKED_STARVATION);
    assert!(!is_called(&signal));
    assert!(signal.send(1).is_none());
    assert!(is_called(&signal));
    assert!(matches!(signal.wait(WaitPhase::Parked), Step::Done(true)));
    assert_eq!(signal.assume_init(), 1);
}

#[test]
fn answer_before_sleep_is_not_missed() {
    let mut signal = Signal::new_sync(KanalPtr::<u8>::default());
    assert!(matches!(
        signal.wait(WaitPhase::Polling(256)),
        Step::Next { pause: Pause::Skip, phase: WaitPhase::Locking }
    ));
    assert!(signal.terminate().is_none());
    assert!(matches!(
        signal.wait(WaitPhase::Locking),
        Step::Next { pause: Pause::Skip, phase: WaitPhase::Settled }
    ));
    assert!(matches!(signal.wait(WaitPhase::Settled), Step::Done(false)));
    assert!(!is_called(&signal));
}

#[test]
fn async_wait_sleeps_gradually_longer() {
    let signal = Signal::<u8>::new_async();
    let mut phase = AsyncWaitPhase::Polling(0);
    for _ in 0..32 {
        match signal.async_blocking_wait(phase) {
            Step::Next { pause: Pause::Yield, phase: next } => phase = next,
            _ => panic!("not a yield"),
        }
    }
    for expected in [1024, 2048, 4096, 8192, 16384, 32768, 65536, 131072, 262144, 262144, 262144] {
        match signal.async_blocking_wait(phase) {
            Step::Next { pause: Pause::Sleep(nanos), phase: next } => {
                assert_eq!(nanos, expected);
                phase = next;
            }
            _ => panic!("not a sleep"),
        }
    }
}

#[test]
fn timeout_looks_at_the_clock_after_its_yields() {
    let signal = Signal::new_sync(KanalPtr::<u8>::default());
    let mut phase = TimeoutPhase::Polling(0);
    for _ in 0..32 {
        match signal.wait_timeout(phase, 100, 50) {
            Step::Next { pause: Pause::Backoff, phase: next } => phase = next,
            _ => panic!("not a moment of back-off"),
        }
    }
    assert!(matches!(phase, TimeoutPhase::Timed));
    assert!(matches!(
        signal.wait_timeout(TimeoutPhase::Timed, 49, 50),
        Step::Next { pause: Pause::Yield, phase: TimeoutPhase::Timed }
    ));
    assert!(matches!(signal.wait_timeout(TimeoutPhase::Timed, 50, 50), Step::Done(false)));
}

#[test]
fn answered_timeout_wait_ends() {
    let mut signal = Signal::new_sync(KanalPtr::default());
    assert!(signal.send(3).is_none());
    assert!(matches!(signal.wait_timeout(TimeoutPhase::Polling(31), 0, 1), Step::Done(true)));
    assert!(matches!(signal.wait_timeout(TimeoutPhase::Timed, 0, 1), Step::Done(true)));
    assert!(matches!(signal.wait_timeout(TimeoutPhase::Timed, 1, 1), Step::Done(true)));
}

#[test]
fn task_is_woken_by_the_returned_waker() {
    let (count, waker) = counter();
    let mut signal = Signal::new_async();
    signal.register_waker(&waker);
    let woken = signal.send(9);
    assert_eq!(signal.poll(), Poll::Ready(UNLOCKED));
    assert_eq!(count.0.load(Ordering::SeqCst), 0);
    woken.unwrap().wake();
    assert_eq!(count.0.load(Ordering::SeqCst), 1);
    assert_eq!(signal.assume_init(), 9);
}

#[test]
fn will_wake_asks_the_wakers() {
    let (_, waker) = counter();
    let (_, other) = counter();
    let mut signal = Signal::<u8>::new_async();
    signal.register_waker(&waker);
    assert!(signal.will_wake(&waker));
    assert!(!signal.will_wake(&other));
    signal.register_waker(&other);
    assert!(signal.will_wake(&other));
    assert!(!signal.will_wake(&waker));
}

#[test]
fn terminator_answers_its_signal() {
    let mut signals = Memory::new();
    let receiver = Signal::new_sync(KanalPtr::default()).pin(&mut signals);
    let sender = Signal::new_sync(KanalPtr::filled(2)).pin(&mut signals);
    let terminator = signals.get(receiver).get_terminator();
    assert!(terminator == *signals.get(receiver));
    assert!(terminator != *signals.get(sender));
    assert!(terminator != Signal::new_async());
    assert!(terminator.send(1, &mut signals).is_none());
    assert_eq!(signals.get_mut(receiver).assume_init(), 1);
    assert_eq!(signals.get(sender).state.v, LOCKED);
    let (data, waker) = SignalTerminator::from(sender).recv(&mut signals);
    assert_eq!(data, 2);
    assert!(waker.is_none());
    assert_eq!(signals.get(sender).state.v, UNLOCKED);
    let third = Signal::new_sync(KanalPtr::filled(3)).pin(&mut signals);
    assert!(signals.get(third).get_terminator().terminate(&mut signals).is_none());
    assert!(signals.get(third).is_terminated());
    assert_eq!(Signal::unpin(third, &mut signals).ptr.slot, Some(3));
}

#[test]
fn wake_brings_to_any_final_state() {
    let mut signal = Signal::new_sync(KanalPtr::<u8>::default());
    assert!(signal.wake(TERMINATED).is_none());
    assert_eq!(signal.state.v, TERMINATED);
    assert!(!is_called(&signal));
    // the signal is not locked any more, so that the state is forced and the thread is called
    assert!(signal.wake(UNLOCKED).is_none());
    assert_eq!(signal.state.v, UNLOCKED);
    assert!(is_called(&signal));
}

#[test]
fn awake_thread_is_answered_in_two_accesses() {
    let mut signal = Signal::new_sync(KanalPtr::default());
    let answering = Answering { state: UNLOCKED, taken: None, phase: AnswerPhase::Send(4) };
    let answering = signal.answer(answering);
    // the data is there before the state tells so
    assert_eq!(signal.ptr.slot, Some(4));
    assert_eq!(signal.poll(), Poll::Pending);
    assert!(matches!(answering.phase, AnswerPhase::Notify));
    let answering = signal.answer(answering);
    assert!(matches!(answering.phase, AnswerPhase::Finished(None)));
    assert_eq!(signal.poll(), Poll::Ready(UNLOCKED));
    assert!(!is_called(&signal));
    let answering = signal.answer(answering);
    assert!(matches!(answering.phase, AnswerPhase::Finished(None)));
    assert_eq!(signal.state.v, UNLOCKED);
}

#[test]
fn sleeping_thread_is_called_after_the_state_has_changed() {
    let mut signal = Signal::new_sync(KanalPtr::filled(5));
    let answering = Answering { state: UNLOCKED, taken: None, phase: AnswerPhase::Recv };
    let answering = signal.answer(answering);
    assert_eq!(answering.taken, Some(5));
    assert_eq!(signal.ptr.slot, None);
    // the thread goes to sleep just before the answer could change its state
    assert!(matches!(
        signal.wait(WaitPhase::Locking),
        Step::Next { pause: Pause::Park, phase: WaitPhase::Parked }
    ));
    let answering = signal.answer(answering);
    assert!(matches!(answering.phase, AnswerPhase::Force));
    assert_eq!(signal.state.v, LOCKED_STARVATION);
    let answering = signal.answer(answering);
    assert!(matches!(answering.phase, AnswerPhase::Call));
    assert_eq!(signal.state.v, UNLOCKED);
    assert!(!is_called(&signal));
    let answering = signal.answer(answering);
    assert!(matches!(answering.phase, AnswerPhase::Finished(None)));
    assert_eq!(answering.taken, Some(5));
    assert!(is_called(&signal));
    assert!(matches!(signal.wait(WaitPhase::Parked), Step::Done(true)));
}

#[test]
fn waker_of_a_task_is_cloned_before_the_state_changes() {
    let (count, waker) = counter();
    let mut signal = Signal::<u8>::new_async();
    signal.register_waker(&waker);
    let answering = Answering { state: TERMINATED, taken: None, phase: AnswerPhase::Notify };
    let answering = signal.answer(answering);
    assert!(matches!(answering.phase, AnswerPhase::Store(_)));
    assert_eq!(signal.poll(), Poll::Pending);
    let answering = signal.answer(answering);
    assert_eq!(signal.poll(), Poll::Ready(TERMINATED));
    // the task may be done with its signal
    drop(signal);
    match answering.phase {
        AnswerPhase::Finished(Some(clone)) => clone.wake(),
        _ => panic!("no waker"),
    }
    assert_eq!(count.0.load(Ordering::SeqCst), 1);
}
