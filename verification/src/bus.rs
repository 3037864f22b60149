//! The bus that a device shares.

use embedded_hal::i2c::Operation;
use vstd::prelude::*;

verus! {

/// `embedded_hal::i2c::Operation`: one step of a transaction, either a buffer
/// to read into or bytes to write. The verifier does not look inside; a value
/// is carried to the bus as it is.
#[verifier::external_type_specification]
#[verifier::external_body]
pub struct ExOperation<'a>(Operation<'a>);

/// A blocking I2C bus with seven-bit addresses.
///
/// Each operation has a relation that says which outcomes it may have: the
/// bus after the call, what the buffers then hold, and the result, given the
/// bus before the call and the arguments. The implementor states the
/// relations, and an operation promises its relation. A bus that states none
/// admits every outcome; code that is generic over the bus knows of a
/// relation only what the operations return.
///
/// Beyond its relation an operation promises only what holds of every borrowed
/// slice: it is as long after the call as it was before.
pub trait I2cBus {
    /// The error that the bus reports.
    type Error;

    /// Whether reading from the device at `address` into a buffer that holds
    /// `buffer` may leave the bus as `after` and the buffer holding `filled`,
    /// and return `result`.
    open spec fn read_outcome(
        &self,
        address: u8,
        buffer: Seq<u8>,
        after: &Self,
        filled: Seq<u8>,
        result: Result<(), Self::Error>,
    ) -> bool {
        true
    }

    /// Whether writing `data` to the device at `address` may leave the bus as
    /// `after` and return `result`.
    open spec fn write_outcome(
        &self,
        address: u8,
        data: Seq<u8>,
        after: &Self,
        result: Result<(), Self::Error>,
    ) -> bool {
        true
    }

    /// Whether writing `data` to the device at `address` and then, in the same
    /// transaction, reading into a buffer that holds `buffer` may leave the
    /// bus as `after` and the buffer holding `filled`, and return `result`.
    open spec fn write_read_outcome(
        &self,
        address: u8,
        data: Seq<u8>,
        buffer: Seq<u8>,
        after: &Self,
        filled: Seq<u8>,
        result: Result<(), Self::Error>,
    ) -> bool {
        true
    }

    /// Whether running `operations`, in their order, as one transaction with
    /// the device at `address` may leave the bus as `after` and the
    /// operations as `done`, and return `result`.
    open spec fn transaction_outcome(
        &self,
        address: u8,
        operations: Seq<Operation<'_>>,
        after: &Self,
        done: Seq<Operation<'_>>,
        result: Result<(), Self::Error>,
    ) -> bool {
        true
    }

    /// Reads enough bytes from the device at `address` to fill `read`.
    fn read(&mut self, address: u8, read: &mut [u8]) -> (result: Result<(), Self::Error>)
        ensures
            final(read)@.len() == old(read)@.len(),
            old(self).read_outcome(address, old(read)@, final(self), final(read)@, result),
    ;

    /// Writes `write` to the device at `address`.
    fn write(&mut self, address: u8, write: &[u8]) -> (result: Result<(), Self::Error>)
        ensures
            old(self).write_outcome(address, write@, final(self), result),
    ;

    /// Writes `write` to the device at `address`, then reads enough bytes to
    /// fill `read`, in a single transaction.
    fn write_read(&mut self, address: u8, write: &[u8], read: &mut [u8]) -> (result: Result<
        (),
        Self::Error,
    >)
        ensures
            final(read)@.len() == old(read)@.len(),
            old(self).write_read_outcome(
                address,
                write@,
                old(read)@,
                final(self),
                final(read)@,
                result,
            ),
    ;

    /// Runs `operations` in their order as a single transaction with the
    /// device at `address`.
    fn transaction(&mut self, address: u8, operations: &mut [Operation<'_>]) -> (result: Result<
        (),
        Self::Error,
    >)
        ensures
            final(operations)@.len() == old(operations)@.len(),
            old(self).transaction_outcome(
                address,
                old(operations)@,
                final(self),
                final(operations)@,
                result,
            ),
    ;
}

} // verus!
