//! Sharing one I2C bus between several owners.
//!
//! A [`MutexDevice`] borrows a bus that sits behind a `std::sync::Mutex`. Any
//! number of devices, on any number of threads, may borrow the same mutex.
//! An owner reaches the bus in two steps: it takes the lock of its device's
//! mutex, and it hands the exclusive borrow that the lock gives to one of the
//! functions of [`forward`], which makes one operation of the bus with the
//! arguments as they are and returns what the bus returned.
//!
//! The first step is not made here. Taking a lock can fail in ways that no
//! contract can speak of, on a poisoned lock or on a thread that holds the
//! lock already, and what to do then is for the caller to say. Everything
//! after it is verified.
//!
//! What a bus does is known only to its implementor, so a bus states it: each
//! operation of [`I2cBus`] comes with a relation over the bus before and after
//! the call, the arguments, the buffers and the result. The contracts of the
//! forwarding functions are those relations.

pub mod bus;
pub mod device;
pub mod forward;

pub use bus::I2cBus;
pub use device::MutexDevice;
