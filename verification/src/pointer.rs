//! The place through which a signal hands its data over.
use vstd::prelude::*;

verus! {

/// The place of one value on its way through a signal.
///
/// A signal that sends starts with the value in place. A signal that receives starts with the
/// place empty, and the value is written to it.
pub struct KanalPtr<T> {
    pub slot: Option<T>,
}

impl<T> Default for KanalPtr<T> {
    /// Returns an empty place.
    fn default() -> (ptr: KanalPtr<T>)
        ensures
            ptr.slot is None,
    {
        KanalPtr { slot: None }
    }
}

impl<T> KanalPtr<T> {
    /// Returns a place that holds `value`.
    pub fn filled(value: T) -> (ptr: KanalPtr<T>)
        ensures
            ptr.slot == Some(value),
    {
        KanalPtr { slot: Some(value) }
    }

    /// Moves the value out of the place.
    pub fn read(&mut self) -> (value: T)
        requires
            old(self).slot is Some,
        ensures
            old(self).slot == Some(value),
            final(self).slot is None,
    {
        self.slot.take().unwrap()
    }

    /// Moves `value` into the place.
    pub fn write(&mut self, value: T)
        requires
            old(self).slot is None,
        ensures
            final(self).slot == Some(value),
    {
        self.slot = Some(value);
    }
}

} // verus!
