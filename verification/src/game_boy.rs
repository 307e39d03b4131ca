//! The machine: a processor and the circuitry it drives.

use vstd::prelude::*;
use vstd::std_specs::cmp::PartialEqSpecImpl;
use crate::circuitry::interface::CircuitryInterface;
use crate::circuitry::Circuitry;
use crate::cpu::{DecodeError, CPU};
use crate::cpu::instruction::is_unassigned;
use crate::cpu::registers::CPURegisters;

verus! {

/// The whole machine.
#[derive(Debug)]
pub struct GameBoy {
    /// The processor.
    pub cpu: CPU,
    /// The bus and the memory behind it.
    pub circuitry: Circuitry,
}

impl GameBoy {
    /// Runs the machine for one step of its processor on its own circuitry
    /// and reports the number of machine cycles that the step took.
    pub fn step(&mut self) -> (outcome: Result<u8, DecodeError>)
        ensures
            (outcome, final(self).cpu, final(self).circuitry) == CPU::spec_step(
                old(self).cpu,
                old(self).circuitry,
            ),
            outcome is Err <==> is_unassigned(old(self).circuitry.peek(old(self).cpu.registers.pc)),
            outcome is Err ==> *final(self) == *old(self),
    {
        self.cpu.step(&mut self.circuitry)
    }
}

impl PartialEq for GameBoy {
    /// Two machines are equal when their processors and their circuitries
    /// are.
    fn eq(&self, other: &Self) -> (equal: bool) {
        self.cpu == other.cpu && self.circuitry == other.circuitry
    }
}

impl PartialEqSpecImpl for GameBoy {
    open spec fn obeys_eq_spec() -> bool {
        true
    }

    open spec fn eq_spec(&self, other: &Self) -> bool {
        *self == *other
    }
}

impl Default for GameBoy {
    /// A machine that has not been started: every register zero and zero at
    /// every address.
    fn default() -> (game_boy: Self)
        ensures
            game_boy == (GameBoy {
                cpu: CPU { registers: CPURegisters::zeroed() },
                circuitry: Circuitry::zeroed(),
            }),
    {
        Self { cpu: CPU::default(), circuitry: Circuitry::default() }
    }
}

} // verus!
