//! The processor: its register file and the cycle that fetches, decodes and
//! executes one instruction.

use vstd::prelude::*;
use crate::circuitry::interface::CircuitryInterface;
use crate::cpu::effect::{
    is_branch,
    lemma_effect_keeps_program_counter,
    spec_effect,
    spec_offset,
    spec_taken,
};
use crate::cpu::execution::{execute, offset_up};
use crate::cpu::instruction::{
    is_unassigned,
    lemma_decode_gives_opcode,
    lemma_decode_prefixed_gives_opcode,
    Instruction,
};
use crate::cpu::operands::PREFIX;
use crate::cpu::registers::{CPURegisters, CpuRegistersAccessTrait};
use crate::helpers::bit_operations::{construct_u16, spec_construct_u16};

pub mod effect;
pub mod execution;
pub mod instruction;
pub mod operands;
pub mod registers;

verus! {

/// The byte at the program counter names no instruction. Nothing can be
/// executed from here on: skipping the byte would leave the machine in a
/// state that the hardware never reaches.
#[derive(Debug, Copy, Clone, PartialEq, Eq, Structural)]
pub struct DecodeError {
    /// The address that the byte was fetched from.
    pub address: u16,
    /// The byte.
    pub opcode: u8,
}

/// The processor. All that a program can see of it is its register file.
#[derive(Debug, PartialEq, Eq, Structural)]
pub struct CPU {
    /// The register file.
    pub registers: CPURegisters,
}

/// The instruction that starts at `address` on the bus, if the byte there
/// names one. After the prefix byte, the byte that follows decides.
pub open spec fn spec_fetch<C: CircuitryInterface>(bus: C, address: u16) -> Option<Instruction> {
    let first = bus.peek(address);
    if first == PREFIX {
        Some(Instruction::spec_decode_prefixed(bus.peek(spec_offset(address, 1))))
    } else {
        Instruction::spec_decode(first)
    }
}

/// The operand bytes of the instruction that starts at `address`, as one
/// value: nothing for an instruction without operand bytes, one byte for an
/// 8-bit operand, and two bytes, low byte first, for a 16-bit operand.
pub open spec fn spec_operand<C: CircuitryInterface>(
    bus: C,
    address: u16,
    instruction: Instruction,
) -> u16 {
    if instruction.is_prefixed() || instruction.spec_length() == 1 {
        0
    } else if instruction.spec_length() == 2 {
        spec_construct_u16(bus.peek(spec_offset(address, 1)), 0)
    } else {
        spec_construct_u16(bus.peek(spec_offset(address, 1)), bus.peek(spec_offset(address, 2)))
    }
}

impl CPU {
    /// What one step makes of the processor and the bus: the result of the
    /// step, and the processor and the bus after it.
    ///
    /// The byte at the program counter is fetched and decoded. If it names
    /// no instruction the step fails and changes nothing. Otherwise the
    /// program counter moves past the instruction, the instruction takes
    /// its effect, which may set the program counter anew, and the step
    /// reports the machine cycles that the instruction cost.
    pub open spec fn spec_step<C: CircuitryInterface>(cpu: CPU, bus: C) -> (
        Result<u8, DecodeError>,
        CPU,
        C,
    ) {
        let address = cpu.registers.pc;
        match spec_fetch(bus, address) {
            None => (Err(DecodeError { address, opcode: bus.peek(address) }), cpu, bus),
            Some(instruction) => {
                let advanced = CPURegisters {
                    pc: spec_offset(address, instruction.spec_length() as int),
                    ..cpu.registers
                };
                let effect = spec_effect(
                    instruction,
                    spec_operand(bus, address, instruction),
                    advanced,
                    bus,
                );
                (
                    Ok(instruction.spec_cycles(spec_taken(instruction, cpu.registers.f))),
                    CPU { registers: effect.0 },
                    effect.1,
                )
            },
        }
    }

    /// Runs one fetch-decode-execute cycle against the bus `c` and reports
    /// the number of machine cycles that it took.
    ///
    /// A byte that names no instruction is a [`DecodeError`]; the step then
    /// leaves the processor and the bus as they were.
    pub fn step<C: CircuitryInterface>(&mut self, c: &mut C) -> (outcome: Result<u8, DecodeError>)
        ensures
            (outcome, *final(self), *final(c)) == Self::spec_step(*old(self), *old(c)),
            outcome is Err <==> is_unassigned(old(c).peek(old(self).registers.pc)),
            outcome is Err ==> *final(self) == *old(self) && *final(c) == *old(c) && outcome == Err::<
                u8,
                DecodeError,
            >(
                DecodeError {
                    address: old(self).registers.pc,
                    opcode: old(c).peek(old(self).registers.pc),
                },
            ),
    {
        proof {
            lemma_step_fails_on_unassigned(*self, *c);
        }
        let address = self.registers.get_pc();
        let first = c.read(address);
        let instruction = if first == PREFIX {
            let second = c.read(offset_up(address, 1));
            proof {
                lemma_decode_prefixed_gives_opcode(second);
            }
            Instruction::decode_prefixed(second)
        } else {
            proof {
                lemma_decode_gives_opcode(first);
            }
            match Instruction::decode(first) {
                Some(instruction) => instruction,
                None => {
                    return Err(DecodeError { address, opcode: first });
                },
            }
        };
        let length = instruction.length();
        let operand: u16 = if first == PREFIX || length == 1 {
            0
        } else if length == 2 {
            construct_u16(c.read(offset_up(address, 1)), 0)
        } else {
            construct_u16(c.read(offset_up(address, 1)), c.read(offset_up(address, 2)))
        };
        self.registers.set_pc(offset_up(address, length));
        let cycles = execute(instruction, operand, &mut self.registers, c);
        Ok(cycles)
    }
}

impl Default for CPU {
    /// A processor that has not been started: every register zero.
    fn default() -> (cpu: Self)
        ensures
            cpu == (CPU { registers: CPURegisters::zeroed() }),
    {
        Self { registers: CPURegisters::default() }
    }
}

impl CpuRegistersAccessTrait for CPU {
    open spec fn registers(&self) -> CPURegisters {
        self.registers
    }

    open spec fn with_registers(self, registers: CPURegisters) -> Self {
        CPU { registers, ..self }
    }

    fn get_registers(&self) -> (registers: &CPURegisters) {
        &self.registers
    }

    fn get_registers_mut(&mut self) -> (registers: &mut CPURegisters) {
        &mut self.registers
    }
}

/// No instruction starts at an address exactly when the byte there is one
/// of the eleven unassigned opcodes.
pub proof fn lemma_fetch_fails_on_unassigned<C: CircuitryInterface>(bus: C, address: u16)
    ensures
        spec_fetch(bus, address) is None <==> is_unassigned(bus.peek(address)),
{
    lemma_decode_gives_opcode(bus.peek(address));
}

/// A step fails exactly when the byte at the program counter is one of the
/// eleven unassigned opcodes. It then names that byte and its address and
/// changes neither the processor nor the bus.
pub proof fn lemma_step_fails_on_unassigned<C: CircuitryInterface>(cpu: CPU, bus: C)
    ensures
        CPU::spec_step(cpu, bus).0 is Err <==> is_unassigned(bus.peek(cpu.registers.pc)),
        CPU::spec_step(cpu, bus).0 is Err ==> CPU::spec_step(cpu, bus) == (
            Err::<u8, DecodeError>(
                DecodeError { address: cpu.registers.pc, opcode: bus.peek(cpu.registers.pc) },
            ),
            cpu,
            bus,
        ),
{
    lemma_fetch_fails_on_unassigned(bus, cpu.registers.pc);
    assert(CPU::spec_step(cpu, bus).0 is Err <==> spec_fetch(bus, cpu.registers.pc) is None);
}

/// A step that succeeds reports between one and six machine cycles: the
/// cost of the instruction that it fetched.
pub proof fn lemma_step_cycles<C: CircuitryInterface>(cpu: CPU, bus: C)
    ensures
        match (CPU::spec_step(cpu, bus).0, spec_fetch(bus, cpu.registers.pc)) {
            (Ok(cycles), Some(instruction)) => 1 <= cycles <= 6 && cycles
                == instruction.spec_cycles(spec_taken(instruction, cpu.registers.f)),
            (Ok(_), None) => false,
            (Err(_), _) => true,
        },
{
}

/// A step that fetches anything but a jump, call or return that goes ahead
/// moves the program counter by the length of the instruction, wrapping at
/// the end of the address space.
pub proof fn lemma_step_advances<C: CircuitryInterface>(cpu: CPU, bus: C)
    ensures
        match spec_fetch(bus, cpu.registers.pc) {
            Some(instruction) => !is_branch(instruction) || !spec_taken(
                instruction,
                cpu.registers.f,
            ) ==> CPU::spec_step(cpu, bus).1.registers.pc == spec_offset(
                cpu.registers.pc,
                instruction.spec_length() as int,
            ),
            None => true,
        },
{
    match spec_fetch(bus, cpu.registers.pc) {
        Some(instruction) => {
            let advanced = CPURegisters {
                pc: spec_offset(cpu.registers.pc, instruction.spec_length() as int),
                ..cpu.registers
            };
            if !is_branch(instruction) || !spec_taken(instruction, cpu.registers.f) {
                lemma_effect_keeps_program_counter(
                    instruction,
                    spec_operand(bus, cpu.registers.pc, instruction),
                    advanced,
                    bus,
                );
            }
        },
        None => {},
    }
}

} // verus!
