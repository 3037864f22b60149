//! Handing one operation on to the shared bus.
//!
//! Each function takes the exclusive borrow of the bus that the lock of a
//! device's mutex gave, and makes one operation of the bus: the same
//! operation, with the same address and the same buffers, once. Its contract
//! is the relation that the bus states for that operation, between the bus
//! before the call and the bus after it, so what comes back is what the bus
//! gave, result or error, and the bus is left as that one call left it.

use crate::bus::I2cBus;
use embedded_hal::i2c::Operation;
use vstd::prelude::*;

verus! {

/// Reads from the device at `address` into `read` on `bus`, once, and returns
/// what the bus returned.
pub fn read_from<T: I2cBus>(bus: &mut T, address: u8, read: &mut [u8]) -> (result: Result<
    (),
    T::Error,
>)
    ensures
        final(read)@.len() == old(read)@.len(),
        old(bus).read_outcome(address, old(read)@, final(bus), final(read)@, result),
{
    bus.read(address, read)
}

/// Writes `data` to the device at `address` on `bus`, once, and returns what
/// the bus returned.
pub fn write_to<T: I2cBus>(bus: &mut T, address: u8, data: &[u8]) -> (result: Result<
    (),
    T::Error,
>)
    ensures
        old(bus).write_outcome(address, data@, final(bus), result),
{
    bus.write(address, data)
}

/// Writes `data` to the device at `address` and reads into `read`, in one
/// transaction of `bus`, and returns what the bus returned.
pub fn write_read_on<T: I2cBus>(bus: &mut T, address: u8, data: &[u8], read: &mut [u8]) -> (result:
    Result<(), T::Error>)
    ensures
        final(read)@.len() == old(read)@.len(),
        old(bus).write_read_outcome(
            address,
            data@,
            old(read)@,
            final(bus),
            final(read)@,
            result,
        ),
{
    bus.write_read(address, data, read)
}

/// Runs `operations` in their order as one transaction of `bus` with the
/// device at `address`, and returns what the bus returned.
pub fn transaction_on<T: I2cBus>(
    bus: &mut T,
    address: u8,
    operations: &mut [Operation<'_>],
) -> (result: Result<(), T::Error>)
    ensures
        final(operations)@.len() == old(operations)@.len(),
        old(bus).transaction_outcome(
            address,
            old(operations)@,
            final(bus),
            final(operations)@,
            result,
        ),
{
    bus.transaction(address, operations)
}

} // verus!
