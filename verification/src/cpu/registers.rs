//! The register file of the processor and the capability through which
//! components read and write it.

use vstd::prelude::*;
use crate::cpu::registers::flags::{lemma_byte_to_flags_to_byte, CPUFlagsRegister};
use crate::helpers::bit_operations::{
    construct_u16,
    deconstruct_u16,
    spec_construct_u16,
    spec_deconstruct_u16,
};

pub mod flags;

verus! {

/// Accumulator when the boot sequence hands over.
pub const INITIAL_A: u8 = 0x01;

/// Register B when the boot sequence hands over.
pub const INITIAL_B: u8 = 0xFF;

/// Register C when the boot sequence hands over.
pub const INITIAL_C: u8 = 0x13;

/// Register D when the boot sequence hands over.
pub const INITIAL_D: u8 = 0x00;

/// Register E when the boot sequence hands over.
pub const INITIAL_E: u8 = 0xC1;

/// Register H when the boot sequence hands over.
pub const INITIAL_H: u8 = 0x84;

/// Register L when the boot sequence hands over.
pub const INITIAL_L: u8 = 0x03;

/// Program counter when the boot sequence hands over: the entry point of
/// the cartridge.
pub const INITIAL_PC: u16 = 0x0100;

/// Stack pointer when the boot sequence hands over.
pub const INITIAL_SP: u16 = 0xFFFE;

/// The registers that a program can see: seven 8-bit registers, the flags,
/// the program counter and the stack pointer. The 8-bit registers pair up
/// into the 16-bit registers AF, BC, DE and HL; the first register of a
/// pair is its high byte.
#[derive(Debug, Copy, Clone, PartialEq, Eq, Structural)]
pub struct CPURegisters {
    /// The accumulator.
    pub a: u8,
    /// Register B, the high byte of BC.
    pub b: u8,
    /// Register C, the low byte of BC.
    pub c: u8,
    /// Register D, the high byte of DE.
    pub d: u8,
    /// Register E, the low byte of DE.
    pub e: u8,
    /// The flags, the low byte of AF.
    pub f: CPUFlagsRegister,
    /// Register H, the high byte of HL.
    pub h: u8,
    /// Register L, the low byte of HL.
    pub l: u8,
    /// Program counter: the address of the next instruction to execute.
    pub pc: u16,
    /// Stack pointer: the address of the current top of the stack.
    pub sp: u16,
}

impl CPURegisters {
    /// The pair AF: the accumulator above the byte form of the flags.
    pub open spec fn af(self) -> u16 {
        spec_construct_u16(self.f.spec_to_byte(), self.a)
    }

    /// The pair BC.
    pub open spec fn bc(self) -> u16 {
        spec_construct_u16(self.c, self.b)
    }

    /// The pair DE.
    pub open spec fn de(self) -> u16 {
        spec_construct_u16(self.e, self.d)
    }

    /// The pair HL.
    pub open spec fn hl(self) -> u16 {
        spec_construct_u16(self.l, self.h)
    }

    /// These registers with the flags read from `value`.
    pub open spec fn with_f(self, value: u8) -> CPURegisters {
        CPURegisters { f: CPUFlagsRegister::spec_from_byte(value), ..self }
    }

    /// These registers with the pair AF written: the accumulator takes the
    /// high byte, the flags take the upper nibble of the low byte.
    pub open spec fn with_af(self, value: u16) -> CPURegisters {
        CPURegisters {
            a: spec_deconstruct_u16(value).1,
            f: CPUFlagsRegister::spec_from_byte(spec_deconstruct_u16(value).0),
            ..self
        }
    }

    /// These registers with the pair BC written.
    pub open spec fn with_bc(self, value: u16) -> CPURegisters {
        CPURegisters { b: spec_deconstruct_u16(value).1, c: spec_deconstruct_u16(value).0, ..self }
    }

    /// These registers with the pair DE written.
    pub open spec fn with_de(self, value: u16) -> CPURegisters {
        CPURegisters { d: spec_deconstruct_u16(value).1, e: spec_deconstruct_u16(value).0, ..self }
    }

    /// These registers with the pair HL written.
    pub open spec fn with_hl(self, value: u16) -> CPURegisters {
        CPURegisters { h: spec_deconstruct_u16(value).1, l: spec_deconstruct_u16(value).0, ..self }
    }

    /// The registers of a machine that has not been started: all zero, all
    /// flags clear.
    pub open spec fn zeroed() -> CPURegisters {
        CPURegisters {
            a: 0,
            b: 0,
            c: 0,
            d: 0,
            e: 0,
            f: CPUFlagsRegister { zero: false, subtract: false, half_carry: false, carry: false },
            h: 0,
            l: 0,
            pc: 0,
            sp: 0,
        }
    }

    /// The registers as the boot sequence leaves them: A is 0x01, B 0xFF,
    /// C 0x13, D 0x00, E 0xC1, H 0x84 and L 0x03, all flags are clear, the
    /// program counter is 0x0100 and the stack pointer 0xFFFE.
    pub open spec fn spec_initialize() -> CPURegisters {
        CPURegisters {
            a: 0x01,
            b: 0xFF,
            c: 0x13,
            d: 0x00,
            e: 0xC1,
            f: CPUFlagsRegister { zero: false, subtract: false, half_carry: false, carry: false },
            h: 0x84,
            l: 0x03,
            pc: 0x0100,
            sp: 0xFFFE,
        }
    }

    /// The registers as the boot sequence leaves them when it hands control
    /// to the cartridge.
    #[verifier::when_used_as_spec(spec_initialize)]
    pub fn initialize() -> (registers: Self)
        ensures
            registers == Self::spec_initialize(),
    {
        Self {
            a: INITIAL_A,
            b: INITIAL_B,
            c: INITIAL_C,
            d: INITIAL_D,
            e: INITIAL_E,
            f: CPUFlagsRegister::initialize(),
            h: INITIAL_H,
            l: INITIAL_L,
            pc: INITIAL_PC,
            sp: INITIAL_SP,
        }
    }
}

impl Default for CPURegisters {
    /// The registers of a machine that has not been started: all zero, all
    /// flags clear.
    fn default() -> (registers: Self)
        ensures
            registers == Self::zeroed(),
    {
        Self {
            a: 0,
            b: 0,
            c: 0,
            d: 0,
            e: 0,
            f: CPUFlagsRegister::default(),
            h: 0,
            l: 0,
            pc: 0,
            sp: 0,
        }
    }
}

impl CpuRegistersAccessTrait for CPURegisters {
    open spec fn registers(&self) -> CPURegisters {
        *self
    }

    open spec fn with_registers(self, registers: CPURegisters) -> Self {
        registers
    }

    fn get_registers(&self) -> (registers: &CPURegisters) {
        self
    }

    fn get_registers_mut(&mut self) -> (registers: &mut CPURegisters) {
        self
    }
}

/// Access to a register file, for any component that holds one. An
/// implementer says where its registers are; reading and writing of every
/// register, pair and flag then comes with the trait.
///
/// Every write changes the named register, pair or flag of the register
/// file and nothing else of the implementer.
pub trait CpuRegistersAccessTrait: Sized {
    /// The register file that this value holds.
    spec fn registers(&self) -> CPURegisters;

    /// This value with `registers` in place of its register file and
    /// everything else as it is.
    spec fn with_registers(self, registers: CPURegisters) -> Self;

    /// The register file, for reading.
    fn get_registers(&self) -> (registers: &CPURegisters)
        ensures
            *registers == self.registers(),
    ;

    /// The register file, for writing. What the caller leaves in it becomes
    /// the register file of this value.
    fn get_registers_mut(&mut self) -> (registers: &mut CPURegisters)
        ensures
            *registers == old(self).registers(),
            final(self).registers() == *final(registers),
            *final(self) == old(self).with_registers(*final(registers)),
    ;

    /// The accumulator.
    fn get_a(&self) -> (value: u8)
        ensures
            value == self.registers().a,
    {
        self.get_registers().a
    }

    /// Writes the accumulator.
    fn set_a(&mut self, value: u8)
        ensures
            final(self).registers() == (CPURegisters { a: value, ..old(self).registers() }),
            *final(self) == old(self).with_registers(final(self).registers()),
    {
        self.get_registers_mut().a = value;
    }

    /// Register B.
    fn get_b(&self) -> (value: u8)
        ensures
            value == self.registers().b,
    {
        self.get_registers().b
    }

    /// Writes register B.
    fn set_b(&mut self, value: u8)
        ensures
            final(self).registers() == (CPURegisters { b: value, ..old(self).registers() }),
            *final(self) == old(self).with_registers(final(self).registers()),
    {
        self.get_registers_mut().b = value;
    }

    /// Register C.
    fn get_c(&self) -> (value: u8)
        ensures
            value == self.registers().c,
    {
        self.get_registers().c
    }

    /// Writes register C.
    fn set_c(&mut self, value: u8)
        ensures
            final(self).registers() == (CPURegisters { c: value, ..old(self).registers() }),
            *final(self) == old(self).with_registers(final(self).registers()),
    {
        self.get_registers_mut().c = value;
    }

    /// Register D.
    fn get_d(&self) -> (value: u8)
        ensures
            value == self.registers().d,
    {
        self.get_registers().d
    }

    /// Writes register D.
    fn set_d(&mut self, value: u8)
        ensures
            final(self).registers() == (CPURegisters { d: value, ..old(self).registers() }),
            *final(self) == old(self).with_registers(final(self).registers()),
    {
        self.get_registers_mut().d = value;
    }

    /// Register E.
    fn get_e(&self) -> (value: u8)
        ensures
            value == self.registers().e,
    {
        self.get_registers().e
    }

    /// Writes register E.
    fn set_e(&mut self, value: u8)
        ensures
            final(self).registers() == (CPURegisters { e: value, ..old(self).registers() }),
            *final(self) == old(self).with_registers(final(self).registers()),
    {
        self.get_registers_mut().e = value;
    }

    /// Register H.
    fn get_h(&self) -> (value: u8)
        ensures
            value == self.registers().h,
    {
        self.get_registers().h
    }

    /// Writes register H.
    fn set_h(&mut self, value: u8)
        ensures
            final(self).registers() == (CPURegisters { h: value, ..old(self).registers() }),
            *final(self) == old(self).with_registers(final(self).registers()),
    {
        self.get_registers_mut().h = value;
    }

    /// Register L.
    fn get_l(&self) -> (value: u8)
        ensures
            value == self.registers().l,
    {
        self.get_registers().l
    }

    /// Writes register L.
    fn set_l(&mut self, value: u8)
        ensures
            final(self).registers() == (CPURegisters { l: value, ..old(self).registers() }),
            *final(self) == old(self).with_registers(final(self).registers()),
    {
        self.get_registers_mut().l = value;
    }

    /// The flags as a byte: bits 7 to 4 hold zero, subtract, half carry and
    /// carry, bits 3 to 0 read as zero.
    fn get_f(&self) -> (value: u8)
        ensures
            value == self.registers().f.spec_to_byte(),
    {
        self.get_registers().f.to_byte()
    }

    /// Writes the flags from the upper nibble of `value`; the lower nibble
    /// is ignored.
    fn set_f(&mut self, value: u8)
        ensures
            final(self).registers() == old(self).registers().with_f(value),
            *final(self) == old(self).with_registers(final(self).registers()),
    {
        self.get_registers_mut().f = CPUFlagsRegister::from_byte(value);
    }

    /// The zero flag.
    fn get_f_zero(&self) -> (value: bool)
        ensures
            value == self.registers().f.zero,
    {
        self.get_registers().f.get_zero()
    }

    /// Writes the zero flag and leaves the other flags as they are.
    fn set_f_zero(&mut self, value: bool)
        ensures
            final(self).registers() == (CPURegisters {
                f: CPUFlagsRegister { zero: value, ..old(self).registers().f },
                ..old(self).registers()
            }),
            *final(self) == old(self).with_registers(final(self).registers()),
    {
        self.get_registers_mut().f.set_zero(value);
    }

    /// The subtract flag.
    fn get_f_subtract(&self) -> (value: bool)
        ensures
            value == self.registers().f.subtract,
    {
        self.get_registers().f.get_subtract()
    }

    /// Writes the subtract flag and leaves the other flags as they are.
    fn set_f_subtract(&mut self, value: bool)
        ensures
            final(self).registers() == (CPURegisters {
                f: CPUFlagsRegister { subtract: value, ..old(self).registers().f },
                ..old(self).registers()
            }),
            *final(self) == old(self).with_registers(final(self).registers()),
    {
        self.get_registers_mut().f.set_subtract(value);
    }

    /// The half-carry flag.
    fn get_f_half_carry(&self) -> (value: bool)
        ensures
            value == self.registers().f.half_carry,
    {
        self.get_registers().f.get_half_carry()
    }

    /// Writes the half-carry flag and leaves the other flags as they are.
    fn set_f_half_carry(&mut self, value: bool)
        ensures
            final(self).registers() == (CPURegisters {
                f: CPUFlagsRegister { half_carry: value, ..old(self).registers().f },
                ..old(self).registers()
            }),
            *final(self) == old(self).with_registers(final(self).registers()),
    {
        self.get_registers_mut().f.set_half_carry(value);
    }

    /// The carry flag.
    fn get_f_carry(&self) -> (value: bool)
        ensures
            value == self.registers().f.carry,
    {
        self.get_registers().f.get_carry()
    }

    /// Writes the carry flag and leaves the other flags as they are.
    fn set_f_carry(&mut self, value: bool)
        ensures
            final(self).registers() == (CPURegisters {
                f: CPUFlagsRegister { carry: value, ..old(self).registers().f },
                ..old(self).registers()
            }),
            *final(self) == old(self).with_registers(final(self).registers()),
    {
        self.get_registers_mut().f.set_carry(value);
    }

    /// The program counter.
    fn get_pc(&self) -> (value: u16)
        ensures
            value == self.registers().pc,
    {
        self.get_registers().pc
    }

    /// Writes the program counter.
    fn set_pc(&mut self, value: u16)
        ensures
            final(self).registers() == (CPURegisters { pc: value, ..old(self).registers() }),
            *final(self) == old(self).with_registers(final(self).registers()),
    {
        self.get_registers_mut().pc = value;
    }

    /// The stack pointer.
    fn get_sp(&self) -> (value: u16)
        ensures
            value == self.registers().sp,
    {
        self.get_registers().sp
    }

    /// Writes the stack pointer.
    fn set_sp(&mut self, value: u16)
        ensures
            final(self).registers() == (CPURegisters { sp: value, ..old(self).registers() }),
            *final(self) == old(self).with_registers(final(self).registers()),
    {
        self.get_registers_mut().sp = value;
    }

    /// Moves the stack pointer up by one. From 0xFFFF it wraps to 0x0000.
    fn increment_sp(&mut self)
        ensures
            final(self).registers() == (CPURegisters {
                sp: ((old(self).registers().sp + 1) % 0x1_0000) as u16,
                ..old(self).registers()
            }),
            *final(self) == old(self).with_registers(final(self).registers()),
    {
        let sp = self.get_sp();
        self.set_sp(sp.wrapping_add(1));
    }

    /// Moves the stack pointer down by one. From 0x0000 it wraps to 0xFFFF.
    fn decrement_sp(&mut self)
        ensures
            final(self).registers() == (CPURegisters {
                sp: ((old(self).registers().sp - 1) % 0x1_0000) as u16,
                ..old(self).registers()
            }),
            *final(self) == old(self).with_registers(final(self).registers()),
    {
        let sp = self.get_sp();
        self.set_sp(sp.wrapping_sub(1));
    }

    /// The pair AF: the accumulator is the high byte, the byte form of the
    /// flags the low byte.
    fn get_af(&self) -> (value: u16)
        ensures
            value == self.registers().af(),
    {
        construct_u16(self.get_f(), self.get_a())
    }

    /// Writes the pair AF: the accumulator takes the high byte and the flags
    /// take the upper nibble of the low byte. The lower nibble is dropped.
    fn set_af(&mut self, value: u16)
        ensures
            final(self).registers() == old(self).registers().with_af(value),
            *final(self) == old(self).with_registers(final(self).registers()),
    {
        let (f, a) = deconstruct_u16(value);
        let registers = self.get_registers_mut();
        registers.f = CPUFlagsRegister::from_byte(f);
        registers.a = a;
    }

    /// The pair BC: register B is the high byte, register C the low byte.
    fn get_bc(&self) -> (value: u16)
        ensures
            value == self.registers().bc(),
    {
        construct_u16(self.get_c(), self.get_b())
    }

    /// Writes the pair BC: register B takes the high byte, register C the low
    /// byte.
    fn set_bc(&mut self, value: u16)
        ensures
            final(self).registers() == old(self).registers().with_bc(value),
            *final(self) == old(self).with_registers(final(self).registers()),
    {
        let (c, b) = deconstruct_u16(value);
        let registers = self.get_registers_mut();
        registers.c = c;
        registers.b = b;
    }

    /// The pair DE: register D is the high byte, register E the low byte.
    fn get_de(&self) -> (value: u16)
        ensures
            value == self.registers().de(),
    {
        construct_u16(self.get_e(), self.get_d())
    }

    /// Writes the pair DE: register D takes the high byte, register E the low
    /// byte.
    fn set_de(&mut self, value: u16)
        ensures
            final(self).registers() == old(self).registers().with_de(value),
            *final(self) == old(self).with_registers(final(self).registers()),
    {
        let (e, d) = deconstruct_u16(value);
        let registers = self.get_registers_mut();
        registers.e = e;
        registers.d = d;
    }

    /// The pair HL: register H is the high byte, register L the low byte.
    fn get_hl(&self) -> (value: u16)
        ensures
            value == self.registers().hl(),
    {
        construct_u16(self.get_l(), self.get_h())
    }

    /// Writes the pair HL: register H takes the high byte, register L the low
    /// byte.
    fn set_hl(&mut self, value: u16)
        ensures
            final(self).registers() == old(self).registers().with_hl(value),
            *final(self) == old(self).with_registers(final(self).registers()),
    {
        let (l, h) = deconstruct_u16(value);
        let registers = self.get_registers_mut();
        registers.l = l;
        registers.h = h;
    }
}

proof fn lemma_upper_twelve_bits(value: u16)
    by (bit_vector)
    ensures
        value & 0xFFF0 == value - value % 16,
{
}

/// A pair reads back exactly as it was written. The pair AF reads back with
/// the four lowest bits cleared, because the flags keep no low nibble.
pub proof fn lemma_pair_write_then_read(registers: CPURegisters, value: u16)
    ensures
        registers.with_bc(value).bc() == value,
        registers.with_de(value).de() == value,
        registers.with_hl(value).hl() == value,
        registers.with_af(value).af() == value & 0xFFF0,
        registers.with_af(value).af() == value - value % 16,
{
    let low = spec_deconstruct_u16(value).0;
    lemma_upper_twelve_bits(value);
    lemma_byte_to_flags_to_byte(low);
    assert(low % 16 == value % 16);
    assert(value == (value / 256) * 256 + low);
}

/// Writing a pair puts the high byte of the value in the first register of
/// the pair and the low byte in the second, whichever of the two is read
/// first.
pub proof fn lemma_pair_write_sets_halves(registers: CPURegisters, value: u16)
    ensures
        registers.with_bc(value).b == value / 256,
        registers.with_bc(value).c == value % 256,
        registers.with_de(value).d == value / 256,
        registers.with_de(value).e == value % 256,
        registers.with_hl(value).h == value / 256,
        registers.with_hl(value).l == value % 256,
        registers.with_af(value).a == value / 256,
        registers.with_af(value).f.spec_to_byte() == value % 256 - value % 16,
{
    let low = spec_deconstruct_u16(value).0;
    lemma_byte_to_flags_to_byte(low);
    assert(low % 16 == value % 16);
}

/// Writing back what a pair reads changes nothing.
pub proof fn lemma_pair_read_then_write(registers: CPURegisters)
    ensures
        registers.with_bc(registers.bc()) == registers,
        registers.with_de(registers.de()) == registers,
        registers.with_hl(registers.hl()) == registers,
        registers.with_af(registers.af()) == registers,
{
}

/// Writing one pair leaves the other pairs, the program counter and the
/// stack pointer as they are.
pub proof fn lemma_pair_write_keeps_others(registers: CPURegisters, value: u16)
    ensures
        registers.with_bc(value) == (CPURegisters {
            b: registers.with_bc(value).b,
            c: registers.with_bc(value).c,
            ..registers
        }),
        registers.with_de(value) == (CPURegisters {
            d: registers.with_de(value).d,
            e: registers.with_de(value).e,
            ..registers
        }),
        registers.with_hl(value) == (CPURegisters {
            h: registers.with_hl(value).h,
            l: registers.with_hl(value).l,
            ..registers
        }),
        registers.with_af(value) == (CPURegisters {
            a: registers.with_af(value).a,
            f: registers.with_af(value).f,
            ..registers
        }),
{
}

} // verus!
