//! The capability through which the processor reaches the bus.

use vstd::prelude::*;

verus! {

/// The bus as the processor sees it: sixty-four kibibytes of addresses that
/// can be read and written one byte at a time. What is attached behind an
/// address (memory, a device register, nothing at all) is the implementer's
/// business; the processor only relies on what this trait states.
pub trait CircuitryInterface: Sized {
    /// The byte that a read of `address` returns in this state of the bus.
    spec fn peek(&self, address: u16) -> u8;

    /// The state of the bus after `value` was written to `address`.
    spec fn after_write(self, address: u16, value: u8) -> Self;

    /// Reads the byte at `address`. A read changes nothing on the bus.
    fn read(&self, address: u16) -> (value: u8)
        ensures
            value == self.peek(address),
    ;

    /// Writes `value` to `address`.
    fn write(&mut self, address: u16, value: u8)
        ensures
            *final(self) == old(self).after_write(address, value),
    ;
}

} // verus!
