//! The device: one owner's handle on a shared bus.

use std::sync::Mutex;
use vstd::prelude::*;

verus! {

/// `std::sync::Mutex`, opaque to the verifier: what it protects changes under
/// the hands of other threads, so no contract speaks of it.
#[verifier::external_type_specification]
#[verifier::external_body]
#[verifier::reject_recursive_types(T)]
pub struct ExMutex<T: ?Sized>(Mutex<T>);

/// A handle on an I2C bus that is shared through a `std::sync::Mutex`.
///
/// The device borrows the mutex and owns nothing else, so any number of
/// devices may stand on one mutex, and a device has no state that an
/// operation could change.
#[verifier::reject_recursive_types(T)]
pub struct MutexDevice<'a, T> {
    bus: &'a Mutex<T>,
}

impl<'a, T> MutexDevice<'a, T> {
    /// The mutex that the device borrows.
    pub closed spec fn mutex(&self) -> &'a Mutex<T> {
        self.bus
    }

    /// Creates a device on the bus behind `bus`. The lock is not touched.
    pub fn new(bus: &'a Mutex<T>) -> (device: Self)
        ensures
            device.mutex() == bus,
    {
        Self { bus }
    }

    /// The mutex to lock for an operation on the shared bus: the one that the
    /// device was created on.
    pub fn shared(&self) -> (lock: &'a Mutex<T>)
        ensures
            lock == self.mutex(),
    {
        self.bus
    }
}

} // verus!
