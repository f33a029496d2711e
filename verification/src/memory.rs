//! An explicit memory: values that live at addresses.
//!
//! A channel and its waiters refer to each other by address. Reading, writing and freeing what
//! an address refers to goes through the [`Memory`] that holds it, so that every such access is
//! an ordinary borrow, and so that contracts can say what an access does to the rest of the
//! memory.
use vstd::prelude::*;

verus! {

/// Values of one type, each at an address of its own.
///
/// The view is the map from the addresses in use to the values that live there.
pub struct Memory<V> {
    cells: Vec<Option<V>>,
}

impl<V> View for Memory<V> {
    type V = Map<usize, V>;

    closed spec fn view(&self) -> Map<usize, V> {
        Map::new(
            |addr: usize| addr < self.cells@.len() && self.cells@[addr as int] is Some,
            |addr: usize| self.cells@[addr as int]->Some_0,
        )
    }
}

impl<V> Memory<V> {
    /// Returns a memory in which nothing lives.
    pub fn new() -> (memory: Memory<V>)
        ensures
            memory@ == Map::<usize, V>::empty(),
    {
        let memory = Memory { cells: Vec::new() };
        assert(memory@ =~= Map::<usize, V>::empty());
        memory
    }

    /// Puts `value` at an address that is not in use, and returns that address.
    pub(crate) fn place(&mut self, value: V) -> (addr: usize)
        ensures
            !old(self)@.contains_key(addr),
            final(self)@ == old(self)@.insert(addr, value),
    {
        let mut addr: usize = 0;
        while addr < self.cells.len() && self.cells[addr].is_some()
            invariant
                addr <= self.cells@.len(),
                *self == *old(self),
            decreases self.cells@.len() - addr,
        {
            addr = addr + 1;
        }
        if addr < self.cells.len() {
            self.cells[addr] = Some(value);
        } else {
            self.cells.push(Some(value));
        }
        assert(self@ =~= old(self)@.insert(addr, value));
        addr
    }

    /// Tells whether something lives at `addr`.
    pub fn contains(&self, addr: usize) -> (found: bool)
        ensures
            found == self@.contains_key(addr),
    {
        addr < self.cells.len() && self.cells[addr].is_some()
    }

    /// Borrows the value that lives at `addr`.
    pub fn get(&self, addr: usize) -> (value: &V)
        requires
            self@.contains_key(addr),
        ensures
            *value == self@[addr],
    {
        self.cells[addr].as_ref().unwrap()
    }

    /// Borrows the value that lives at `addr`, to change it. What is left in the borrow is what
    /// lives at `addr` afterwards; the other addresses keep their values.
    pub fn get_mut(&mut self, addr: usize) -> (value: &mut V)
        requires
            old(self)@.contains_key(addr),
        ensures
            *value == old(self)@[addr],
            final(self)@ == old(self)@.insert(addr, *final(value)),
    {
        let value = self.cells[addr].as_mut().unwrap();
        value
    }

    /// Ends the life of the value at `addr` and returns it. The address can be used again.
    pub(crate) fn free(&mut self, addr: usize) -> (value: V)
        requires
            old(self)@.contains_key(addr),
        ensures
            value == old(self)@[addr],
            final(self)@ == old(self)@.remove(addr),
    {
        let value = self.cells[addr].take().unwrap();
        assert(self@ =~= old(self)@.remove(addr));
        value
    }
}

} // verus!
