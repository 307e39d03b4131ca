//! The circuitry around the processor: the bus and what is attached to it.

use vstd::prelude::*;
use vstd::array::spec_array_update;
use vstd::array::spec_array_fill_for_copy_type;
use vstd::std_specs::cmp::PartialEqSpecImpl;
use crate::circuitry::interface::CircuitryInterface;

pub mod interface;

verus! {

/// The circuitry of the machine: one byte of plain memory behind every
/// address of the bus.
#[derive(Debug)]
pub struct Circuitry {
    /// The byte behind each address.
    pub memory: [u8; 0x1_0000],
}

impl Circuitry {
    /// Circuitry whose memory holds zero at every address.
    pub open spec fn zeroed() -> Circuitry {
        Circuitry { memory: spec_array_fill_for_copy_type(0u8) }
    }
}

impl Default for Circuitry {
    /// Circuitry whose memory holds zero at every address.
    fn default() -> (circuitry: Self)
        ensures
            circuitry == Circuitry::zeroed(),
    {
        Self { memory: [0u8;0x1_0000] }
    }
}

impl PartialEq for Circuitry {
    /// Two circuitries are equal when they hold the same byte at every
    /// address.
    fn eq(&self, other: &Self) -> (equal: bool) {
        let mut address: usize = 0;
        while address < 0x1_0000
            invariant
                address <= 0x1_0000,
                forall|below: int|
                    0 <= below < address ==> self.memory[below] == other.memory[below],
            decreases 0x1_0000 - address,
        {
            if self.memory[address] != other.memory[address] {
                return false;
            }
            address += 1;
        }
        proof {
            broadcast use vstd::array::group_array_axioms;
            assert(self.memory =~= other.memory);
        }
        true
    }
}

impl PartialEqSpecImpl for Circuitry {
    open spec fn obeys_eq_spec() -> bool {
        true
    }

    open spec fn eq_spec(&self, other: &Self) -> bool {
        *self == *other
    }
}

impl CircuitryInterface for Circuitry {
    open spec fn peek(&self, address: u16) -> u8 {
        self.memory[address as int]
    }

    open spec fn after_write(self, address: u16, value: u8) -> Self {
        Circuitry { memory: spec_array_update(self.memory, address as int, value) }
    }

    fn read(&self, address: u16) -> (value: u8) {
        self.memory[address as usize]
    }

    fn write(&mut self, address: u16, value: u8) {
        self.memory[address as usize] = value;
    }
}

/// A byte that was written is the byte that is read back, and a write
/// changes no other address.
pub proof fn lemma_write_then_read(circuitry: Circuitry, address: u16, value: u8, other: u16)
    ensures
        circuitry.after_write(address, value).peek(other) == if other == address {
            value
        } else {
            circuitry.peek(other)
        },
{
    broadcast use vstd::array::group_array_axioms;
}

/// Memory that was cleared reads zero at every address.
pub proof fn lemma_zeroed_reads_zero(address: u16)
    ensures
        Circuitry::zeroed().peek(address) == 0,
{
    broadcast use vstd::array::group_array_axioms;
}

} // verus!
