//! Mutual exclusion, by handing the protected value out.
use vstd::prelude::*;

verus! {

/// A lock round a value. While the lock is held, the value is with the holder.
pub struct Mutex<V> {
    pub value: Option<V>,
}

/// The possession of what a [`Mutex`] protects. Whoever has it holds the lock.
///
/// The view is what the lock protects. A guard is made only where a lock is taken. It is to be
/// given back: a guard that is dropped instead leaves the lock taken for good, and takes what the
/// lock protects with it.
#[must_use]
pub struct MutexGuard<V> {
    mutex: usize,
    value: V,
}

impl<V> View for MutexGuard<V> {
    type V = V;

    closed spec fn view(&self) -> V {
        self.value
    }
}

impl<V> MutexGuard<V> {
    /// The address of the lock.
    pub closed spec fn mutex(self) -> usize {
        self.mutex
    }

    /// Returns the guard of the lock at `mutex`, which protects `value`.
    pub(crate) fn new(mutex: usize, value: V) -> (guard: MutexGuard<V>)
        ensures
            guard.mutex() == mutex,
            guard@ == value,
    {
        MutexGuard { mutex, value }
    }

    /// Returns the address of the lock.
    pub fn address(&self) -> (addr: usize)
        ensures
            addr == self.mutex(),
    {
        self.mutex
    }

    /// Borrows what the lock protects.
    pub fn get(&self) -> (value: &V)
        ensures
            *value == self@,
    {
        &self.value
    }

    /// Borrows what the lock protects, to change it.
    pub fn get_mut(&mut self) -> (value: &mut V)
        ensures
            *value == old(self)@,
            final(self)@ == *final(value),
            final(self).mutex() == old(self).mutex(),
    {
        &mut self.value
    }

    /// Returns the address of the lock and what it protects, to give them back.
    pub(crate) fn into_parts(self) -> (parts: (usize, V))
        ensures
            parts == (self.mutex(), self@),
    {
        (self.mutex, self.value)
    }
}

impl<V> Mutex<V> {
    /// Returns a free lock that protects `value`.
    pub fn new(value: V) -> (mutex: Mutex<V>)
        ensures
            mutex.value == Some(value),
    {
        Mutex { value: Some(value) }
    }

    /// Takes the lock, if it is free: the value that it protects goes to the caller.
    pub fn try_lock(&mut self) -> (value: Option<V>)
        ensures
            value == old(self).value,
            final(self).value is None,
    {
        self.value.take()
    }

    /// Takes the lock, which is free: the value that it protects goes to the caller.
    pub fn lock(&mut self) -> (value: V)
        requires
            old(self).value is Some,
        ensures
            old(self).value == Some(value),
            final(self).value is None,
    {
        self.value.take().unwrap()
    }

    /// Gives the lock back, with the value that it protects.
    pub fn unlock(&mut self, value: V)
        requires
            old(self).value is None,
        ensures
            final(self).value == Some(value),
    {
        self.value = Some(value);
    }
}

} // verus!
