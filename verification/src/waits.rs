//! The order in which the waiters of a channel are served.
use crate::signal::Signal;
use vstd::prelude::*;

verus! {

/// The waiters of a channel, by the addresses of their signals: those that wait longest first,
/// and whether all of them are receivers, or all are senders.
#[verifier::ext_equal]
pub struct Waits {
    pub recv_blocking: bool,
    pub addrs: Seq<usize>,
}

impl Waits {
    /// Each waiter can be answered, and none is listed twice.
    pub open spec fn answerable<T>(self, signals: Map<usize, Signal<T>>) -> bool {
        &&& self.addrs.no_duplicates()
        &&& forall|i: int|
            0 <= i < self.addrs.len() ==> {
                &&& signals.contains_key(#[trigger] self.addrs[i])
                &&& signals[self.addrs[i]].answerable()
            }
    }

    /// Each waiter can be answered, none is listed twice, and all are on the side that
    /// `recv_blocking` tells: the place of a receiver is empty, that of a sender holds its value.
    pub open spec fn well_formed<T>(self, signals: Map<usize, Signal<T>>) -> bool {
        &&& self.answerable(signals)
        &&& forall|i: int|
            0 <= i < self.addrs.len() ==> {
                let signal = signals[#[trigger] self.addrs[i]];
                &&& signal.address == Some(self.addrs[i])
                &&& signal.ptr.slot is None <==> self.recv_blocking
            }
    }

    /// Serves the receiver (`recv`) or the sender that waits longest. Where nobody waits any more,
    /// the list is left to the other side.
    pub open spec fn next(self, recv: bool) -> (Waits, Option<usize>) {
        if self.recv_blocking != recv {
            (self, None)
        } else if self.addrs.len() == 0 {
            (Waits { recv_blocking: !recv, ..self }, None)
        } else {
            (Waits { addrs: self.addrs.drop_first(), ..self }, Some(self.addrs.first()))
        }
    }

    /// Lets one more wait, behind the others.
    pub open spec fn push(self, addr: usize) -> Waits {
        Waits { addrs: self.addrs.push(addr), ..self }
    }

    /// The signal at `addr` waits, as a receiver (`recv`) or as a sender.
    pub open spec fn lists(self, recv: bool, addr: Option<usize>) -> bool {
        self.recv_blocking == recv && addr is Some && self.addrs.contains(addr->Some_0)
    }

    /// Lets the signal at `addr` wait no more, if it waits as a receiver (`recv`) or as a sender.
    pub open spec fn cancel(self, recv: bool, addr: Option<usize>) -> Waits {
        if self.lists(recv, addr) {
            Waits { addrs: self.addrs.remove_value(addr->Some_0), ..self }
        } else {
            self
        }
    }
}

} // verus!
