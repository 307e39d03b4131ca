//! What each instruction does to the registers and to the bus, as a
//! mathematical model.
//!
//! Every function here takes the registers with the program counter already
//! past the instruction, and the operand bytes that followed the opcode as
//! one value: an 8-bit operand in the low byte, a 16-bit operand whole.
//! Where an instruction adds, subtracts or rotates, its result, its carry
//! and its half carry are those of the arithmetic and rotation primitives.

use vstd::prelude::*;
use crate::circuitry::interface::CircuitryInterface;
use crate::cpu::instruction::Instruction;
use crate::cpu::operands::{
    ArithmeticOperation,
    Condition,
    MemoryRegister16,
    Register16,
    Register8,
    ShiftOperation,
    StackRegister16,
};
use crate::cpu::registers::flags::CPUFlagsRegister;
use crate::cpu::registers::CPURegisters;
use crate::helpers::bit_operations::{
    spec_add_carry_u8,
    spec_add_u16,
    spec_add_u16_i8,
    spec_add_u8,
    spec_construct_u16,
    spec_deconstruct_u16,
    spec_get_bit_u8,
    spec_rotate_left_get_carry_u8,
    spec_rotate_left_through_carry_u8,
    spec_rotate_right_get_carry_u8,
    spec_rotate_right_through_carry_u8,
    spec_set_bit_u8,
    spec_sub_carry_u8,
    spec_sub_u8,
};

verus! {

/// The address `distance` places after `address`; addresses wrap from
/// 0xFFFF to 0x0000.
pub open spec fn spec_offset(address: u16, distance: int) -> u16 {
    ((address + distance) % 0x1_0000) as u16
}

/// The signed number that a byte stands for in two's complement.
pub open spec fn spec_signed(value: u8) -> i8 {
    if value < 128 {
        value as i8
    } else {
        (value - 256) as i8
    }
}

/// The address in the last page of the bus that an 8-bit offset names.
pub open spec fn spec_high_address(low: u8) -> u16 {
    spec_construct_u16(low, 0xFF)
}

/// The flags with the given four values.
pub open spec fn flags(
    zero: bool,
    subtract: bool,
    half_carry: bool,
    carry: bool,
) -> CPUFlagsRegister {
    CPUFlagsRegister { zero, subtract, half_carry, carry }
}

/// Whether a condition holds of the flags.
pub open spec fn spec_holds(condition: Condition, flags: CPUFlagsRegister) -> bool {
    match condition {
        Condition::NotZero => !flags.zero,
        Condition::Zero => flags.zero,
        Condition::NotCarry => !flags.carry,
        Condition::Carry => flags.carry,
    }
}

/// The value of an 8-bit operand.
pub open spec fn spec_read8<C: CircuitryInterface>(
    registers: CPURegisters,
    bus: C,
    operand: Register8,
) -> u8 {
    match operand {
        Register8::B => registers.b,
        Register8::C => registers.c,
        Register8::D => registers.d,
        Register8::E => registers.e,
        Register8::H => registers.h,
        Register8::L => registers.l,
        Register8::HLIndirect => bus.peek(registers.hl()),
        Register8::A => registers.a,
    }
}

/// The registers and the bus after `value` was written to an 8-bit operand.
pub open spec fn spec_write8<C: CircuitryInterface>(
    registers: CPURegisters,
    bus: C,
    operand: Register8,
    value: u8,
) -> (CPURegisters, C) {
    match operand {
        Register8::B => (CPURegisters { b: value, ..registers }, bus),
        Register8::C => (CPURegisters { c: value, ..registers }, bus),
        Register8::D => (CPURegisters { d: value, ..registers }, bus),
        Register8::E => (CPURegisters { e: value, ..registers }, bus),
        Register8::H => (CPURegisters { h: value, ..registers }, bus),
        Register8::L => (CPURegisters { l: value, ..registers }, bus),
        Register8::HLIndirect => (registers, bus.after_write(registers.hl(), value)),
        Register8::A => (CPURegisters { a: value, ..registers }, bus),
    }
}

/// The value of a 16-bit operand.
pub open spec fn spec_read16(registers: CPURegisters, pair: Register16) -> u16 {
    match pair {
        Register16::BC => registers.bc(),
        Register16::DE => registers.de(),
        Register16::HL => registers.hl(),
        Register16::SP => registers.sp,
    }
}

/// The registers after `value` was written to a 16-bit operand.
pub open spec fn spec_write16(
    registers: CPURegisters,
    pair: Register16,
    value: u16,
) -> CPURegisters {
    match pair {
        Register16::BC => registers.with_bc(value),
        Register16::DE => registers.with_de(value),
        Register16::HL => registers.with_hl(value),
        Register16::SP => CPURegisters { sp: value, ..registers },
    }
}

/// The value of a pair that the stack instructions name.
pub open spec fn spec_read_stack16(registers: CPURegisters, pair: StackRegister16) -> u16 {
    match pair {
        StackRegister16::BC => registers.bc(),
        StackRegister16::DE => registers.de(),
        StackRegister16::HL => registers.hl(),
        StackRegister16::AF => registers.af(),
    }
}

/// The registers after `value` was written to a pair that the stack
/// instructions name. The flags keep only the upper nibble of their byte.
pub open spec fn spec_write_stack16(
    registers: CPURegisters,
    pair: StackRegister16,
    value: u16,
) -> CPURegisters {
    match pair {
        StackRegister16::BC => registers.with_bc(value),
        StackRegister16::DE => registers.with_de(value),
        StackRegister16::HL => registers.with_hl(value),
        StackRegister16::AF => registers.with_af(value),
    }
}

/// The address that an accumulator transfer uses.
pub open spec fn spec_transfer_address(registers: CPURegisters, pair: MemoryRegister16) -> u16 {
    match pair {
        MemoryRegister16::BC => registers.bc(),
        MemoryRegister16::DE => registers.de(),
        MemoryRegister16::HLIncrement => registers.hl(),
        MemoryRegister16::HLDecrement => registers.hl(),
    }
}

/// The registers after an accumulator transfer has moved HL, where the
/// transfer asks for it.
pub open spec fn spec_transfer_step(
    registers: CPURegisters,
    pair: MemoryRegister16,
) -> CPURegisters {
    match pair {
        MemoryRegister16::BC => registers,
        MemoryRegister16::DE => registers,
        MemoryRegister16::HLIncrement => registers.with_hl(spec_offset(registers.hl(), 1)),
        MemoryRegister16::HLDecrement => registers.with_hl(spec_offset(registers.hl(), -1)),
    }
}

/// The registers and the bus after a 16-bit value was pushed: the stack
/// pointer moves down by two, the high byte is written first, just below
/// the old top, and the low byte below it.
pub open spec fn spec_push16<C: CircuitryInterface>(
    registers: CPURegisters,
    bus: C,
    value: u16,
) -> (CPURegisters, C) {
    let high_address = spec_offset(registers.sp, -1);
    let low_address = spec_offset(registers.sp, -2);
    let bytes = spec_deconstruct_u16(value);
    (
        CPURegisters { sp: low_address, ..registers },
        bus.after_write(high_address, bytes.1).after_write(low_address, bytes.0),
    )
}

/// The value on top of the stack and the registers after it was popped: the
/// low byte is at the stack pointer, the high byte above it, and the stack
/// pointer moves up by two.
pub open spec fn spec_pop16<C: CircuitryInterface>(registers: CPURegisters, bus: C) -> (
    u16,
    CPURegisters,
) {
    (
        spec_construct_u16(bus.peek(registers.sp), bus.peek(spec_offset(registers.sp, 1))),
        CPURegisters { sp: spec_offset(registers.sp, 2), ..registers },
    )
}

/// The registers after an operation of the accumulator with `value`.
pub open spec fn spec_arithmetic(
    operation: ArithmeticOperation,
    registers: CPURegisters,
    value: u8,
) -> CPURegisters {
    let a = registers.a;
    match operation {
        ArithmeticOperation::Add => {
            let sum = spec_add_u8(a, value);
            CPURegisters { a: sum.0, f: flags(sum.0 == 0, false, sum.1, sum.2), ..registers }
        },
        ArithmeticOperation::AddCarry => {
            let sum = spec_add_carry_u8(a, value, registers.f.carry);
            CPURegisters { a: sum.0, f: flags(sum.0 == 0, false, sum.1, sum.2), ..registers }
        },
        ArithmeticOperation::Subtract => {
            let difference = spec_sub_u8(a, value);
            CPURegisters {
                a: difference.0,
                f: flags(difference.0 == 0, true, difference.1, difference.2),
                ..registers
            }
        },
        ArithmeticOperation::SubtractCarry => {
            let difference = spec_sub_carry_u8(a, value, registers.f.carry);
            CPURegisters {
                a: difference.0,
                f: flags(difference.0 == 0, true, difference.1, difference.2),
                ..registers
            }
        },
        ArithmeticOperation::And => CPURegisters {
            a: a & value,
            f: flags(a & value == 0, false, true, false),
            ..registers
        },
        ArithmeticOperation::Xor => CPURegisters {
            a: a ^ value,
            f: flags(a ^ value == 0, false, false, false),
            ..registers
        },
        ArithmeticOperation::Or => CPURegisters {
            a: a | value,
            f: flags(a | value == 0, false, false, false),
            ..registers
        },
        ArithmeticOperation::Compare => {
            let difference = spec_sub_u8(a, value);
            CPURegisters {
                f: flags(difference.0 == 0, true, difference.1, difference.2),
                ..registers
            }
        },
    }
}

/// The result and the carry of a rotation or shift of `value`. A shift is a
/// rotation through a carry that is fixed: zero comes in at the open end,
/// or, for the arithmetic shift, a copy of bit 7.
pub open spec fn spec_shift(operation: ShiftOperation, value: u8, carry: bool) -> (u8, bool) {
    match operation {
        ShiftOperation::RotateLeft => spec_rotate_left_get_carry_u8(value),
        ShiftOperation::RotateRight => spec_rotate_right_get_carry_u8(value),
        ShiftOperation::RotateLeftThroughCarry => spec_rotate_left_through_carry_u8(value, carry),
        ShiftOperation::RotateRightThroughCarry => spec_rotate_right_through_carry_u8(value, carry),
        ShiftOperation::ShiftLeft => spec_rotate_left_through_carry_u8(value, false),
        ShiftOperation::ShiftRightArithmetic => spec_rotate_right_through_carry_u8(
            value,
            value >= 128,
        ),
        ShiftOperation::Swap => (((value % 16) * 16 + value / 16) as u8, false),
        ShiftOperation::ShiftRightLogical => spec_rotate_right_through_carry_u8(value, false),
    }
}

/// The registers after the decimal adjustment of the accumulator. After an
/// addition, 6 is added to a low digit that is above 9 or that carried, and
/// 0x60 to a high digit likewise; after a subtraction the same amounts are
/// taken away for a digit that borrowed. The carry flag tells whether the
/// high digit was corrected.
pub open spec fn spec_decimal_adjust(registers: CPURegisters) -> CPURegisters {
    let a = registers.a;
    let subtract = registers.f.subtract;
    let fix_low = registers.f.half_carry || (!subtract && a % 16 > 9);
    let fix_high = registers.f.carry || (!subtract && a > 0x99);
    let low: int = if fix_low {
        0x06
    } else {
        0x00
    };
    let high: int = if fix_high {
        0x60
    } else {
        0x00
    };
    let result = if subtract {
        ((a - low - high) % 256) as u8
    } else {
        ((a + low + high) % 256) as u8
    };
    CPURegisters { a: result, f: flags(result == 0, subtract, false, fix_high), ..registers }
}

/// The registers after the accumulator took the result of a rotation: the
/// carry flag takes the bit that left, and the other flags are cleared.
pub open spec fn spec_rotated_accumulator(
    registers: CPURegisters,
    rotated: (u8, bool),
) -> CPURegisters {
    CPURegisters { a: rotated.0, f: flags(false, false, false, rotated.1), ..registers }
}

/// Whether a conditional jump, call or return goes ahead. An instruction
/// without a condition counts as going ahead.
pub open spec fn spec_taken(instruction: Instruction, flags: CPUFlagsRegister) -> bool {
    match instruction {
        Instruction::JumpRelativeIf(condition) => spec_holds(condition, flags),
        Instruction::ReturnIf(condition) => spec_holds(condition, flags),
        Instruction::JumpIf(condition) => spec_holds(condition, flags),
        Instruction::CallIf(condition) => spec_holds(condition, flags),
        _ => true,
    }
}

/// The registers and the bus after `instruction` has run. `registers` holds
/// the program counter already past the instruction, and `operand` the
/// operand bytes that followed the opcode.
pub open spec fn spec_effect<C: CircuitryInterface>(
    instruction: Instruction,
    operand: u16,
    registers: CPURegisters,
    bus: C,
) -> (CPURegisters, C) {
    let operand8 = spec_deconstruct_u16(operand).0;
    let taken = spec_taken(instruction, registers.f);
    match instruction {
        Instruction::NoOperation => (registers, bus),
        Instruction::Stop => (registers, bus),
        Instruction::Halt => (registers, bus),
        Instruction::DisableInterrupts => (registers, bus),
        Instruction::EnableInterrupts => (registers, bus),
        Instruction::LoadImmediate16(pair) => (spec_write16(registers, pair, operand), bus),
        Instruction::StoreAccumulator(pair) => (
            spec_transfer_step(registers, pair),
            bus.after_write(spec_transfer_address(registers, pair), registers.a),
        ),
        Instruction::LoadAccumulator(pair) => (
            spec_transfer_step(
                CPURegisters { a: bus.peek(spec_transfer_address(registers, pair)), ..registers },
                pair,
            ),
            bus,
        ),
        Instruction::StoreStackPointer => (
            registers,
            bus.after_write(operand, spec_deconstruct_u16(registers.sp).0).after_write(
                spec_offset(operand, 1),
                spec_deconstruct_u16(registers.sp).1,
            ),
        ),
        Instruction::Increment16(pair) => (
            spec_write16(registers, pair, spec_offset(spec_read16(registers, pair), 1)),
            bus,
        ),
        Instruction::Decrement16(pair) => (
            spec_write16(registers, pair, spec_offset(spec_read16(registers, pair), -1)),
            bus,
        ),
        Instruction::AddToHL(pair) => {
            let sum = spec_add_u16(registers.hl(), spec_read16(registers, pair));
            (
                CPURegisters {
                    f: flags(registers.f.zero, false, sum.1, sum.2),
                    ..registers.with_hl(sum.0)
                },
                bus,
            )
        },
        Instruction::Increment8(target) => {
            let sum = spec_add_u8(spec_read8(registers, bus, target), 1);
            spec_write8(
                CPURegisters { f: flags(sum.0 == 0, false, sum.1, registers.f.carry), ..registers },
                bus,
                target,
                sum.0,
            )
        },
        Instruction::Decrement8(target) => {
            let difference = spec_sub_u8(spec_read8(registers, bus, target), 1);
            spec_write8(
                CPURegisters {
                    f: flags(difference.0 == 0, true, difference.1, registers.f.carry),
                    ..registers
                },
                bus,
                target,
                difference.0,
            )
        },
        Instruction::LoadImmediate8(target) => spec_write8(registers, bus, target, operand8),
        Instruction::RotateAccumulatorLeft => (
            spec_rotated_accumulator(registers, spec_rotate_left_get_carry_u8(registers.a)),
            bus,
        ),
        Instruction::RotateAccumulatorRight => (
            spec_rotated_accumulator(registers, spec_rotate_right_get_carry_u8(registers.a)),
            bus,
        ),
        Instruction::RotateAccumulatorLeftThroughCarry => (
            spec_rotated_accumulator(
                registers,
                spec_rotate_left_through_carry_u8(registers.a, registers.f.carry),
            ),
            bus,
        ),
        Instruction::RotateAccumulatorRightThroughCarry => (
            spec_rotated_accumulator(
                registers,
                spec_rotate_right_through_carry_u8(registers.a, registers.f.carry),
            ),
            bus,
        ),
        Instruction::DecimalAdjust => (spec_decimal_adjust(registers), bus),
        Instruction::Complement => (
            CPURegisters {
                a: !registers.a,
                f: flags(registers.f.zero, true, true, registers.f.carry),
                ..registers
            },
            bus,
        ),
        Instruction::SetCarry => (
            CPURegisters { f: flags(registers.f.zero, false, false, true), ..registers },
            bus,
        ),
        Instruction::ComplementCarry => (
            CPURegisters {
                f: flags(registers.f.zero, false, false, !registers.f.carry),
                ..registers
            },
            bus,
        ),
        Instruction::JumpRelative => (
            CPURegisters {
                pc: spec_add_u16_i8(registers.pc, spec_signed(operand8)).0,
                ..registers
            },
            bus,
        ),
        Instruction::JumpRelativeIf(_) => if taken {
            (
                CPURegisters {
                    pc: spec_add_u16_i8(registers.pc, spec_signed(operand8)).0,
                    ..registers
                },
                bus,
            )
        } else {
            (registers, bus)
        },
        Instruction::Load8(to, from) => spec_write8(
            registers,
            bus,
            to,
            spec_read8(registers, bus, from),
        ),
        Instruction::Arithmetic8(operation, source) => (
            spec_arithmetic(operation, registers, spec_read8(registers, bus, source)),
            bus,
        ),
        Instruction::ArithmeticImmediate(operation) => (
            spec_arithmetic(operation, registers, operand8),
            bus,
        ),
        Instruction::ReturnIf(_) => if taken {
            let popped = spec_pop16(registers, bus);
            (CPURegisters { pc: popped.0, ..popped.1 }, bus)
        } else {
            (registers, bus)
        },
        Instruction::Return => {
            let popped = spec_pop16(registers, bus);
            (CPURegisters { pc: popped.0, ..popped.1 }, bus)
        },
        Instruction::ReturnFromInterrupt => {
            let popped = spec_pop16(registers, bus);
            (CPURegisters { pc: popped.0, ..popped.1 }, bus)
        },
        Instruction::JumpIf(_) => if taken {
            (CPURegisters { pc: operand, ..registers }, bus)
        } else {
            (registers, bus)
        },
        Instruction::Jump => (CPURegisters { pc: operand, ..registers }, bus),
        Instruction::JumpToHL => (CPURegisters { pc: registers.hl(), ..registers }, bus),
        Instruction::CallIf(_) => if taken {
            let pushed = spec_push16(registers, bus, registers.pc);
            (CPURegisters { pc: operand, ..pushed.0 }, pushed.1)
        } else {
            (registers, bus)
        },
        Instruction::Call => {
            let pushed = spec_push16(registers, bus, registers.pc);
            (CPURegisters { pc: operand, ..pushed.0 }, pushed.1)
        },
        Instruction::Restart(target) => {
            let pushed = spec_push16(registers, bus, registers.pc);
            (CPURegisters { pc: target as u16, ..pushed.0 }, pushed.1)
        },
        Instruction::Pop(pair) => {
            let popped = spec_pop16(registers, bus);
            (spec_write_stack16(popped.1, pair, popped.0), bus)
        },
        Instruction::Push(pair) => spec_push16(registers, bus, spec_read_stack16(registers, pair)),
        Instruction::StoreHighAtC => (
            registers,
            bus.after_write(spec_high_address(registers.c), registers.a),
        ),
        Instruction::StoreHigh => (
            registers,
            bus.after_write(spec_high_address(operand8), registers.a),
        ),
        Instruction::StoreAbsolute => (registers, bus.after_write(operand, registers.a)),
        Instruction::LoadHighAtC => (
            CPURegisters { a: bus.peek(spec_high_address(registers.c)), ..registers },
            bus,
        ),
        Instruction::LoadHigh => (
            CPURegisters { a: bus.peek(spec_high_address(operand8)), ..registers },
            bus,
        ),
        Instruction::LoadAbsolute => (CPURegisters { a: bus.peek(operand), ..registers }, bus),
        Instruction::AddToStackPointer => {
            let sum = spec_add_u16_i8(registers.sp, spec_signed(operand8));
            (CPURegisters { sp: sum.0, f: flags(false, false, sum.1, sum.2), ..registers }, bus)
        },
        Instruction::LoadHLFromStackPointer => {
            let sum = spec_add_u16_i8(registers.sp, spec_signed(operand8));
            (
                CPURegisters { f: flags(false, false, sum.1, sum.2), ..registers.with_hl(sum.0) },
                bus,
            )
        },
        Instruction::LoadStackPointerFromHL => (
            CPURegisters { sp: registers.hl(), ..registers },
            bus,
        ),
        Instruction::Shift8(operation, target) => {
            let shifted = spec_shift(
                operation,
                spec_read8(registers, bus, target),
                registers.f.carry,
            );
            spec_write8(
                CPURegisters { f: flags(shifted.0 == 0, false, false, shifted.1), ..registers },
                bus,
                target,
                shifted.0,
            )
        },
        Instruction::TestBit(bit, source) => (
            CPURegisters {
                f: flags(
                    !spec_get_bit_u8(spec_read8(registers, bus, source), bit as usize),
                    false,
                    true,
                    registers.f.carry,
                ),
                ..registers
            },
            bus,
        ),
        Instruction::ResetBit(bit, target) => spec_write8(
            registers,
            bus,
            target,
            spec_set_bit_u8(spec_read8(registers, bus, target), bit as usize, false),
        ),
        Instruction::SetBit(bit, target) => spec_write8(
            registers,
            bus,
            target,
            spec_set_bit_u8(spec_read8(registers, bus, target), bit as usize, true),
        ),
    }
}

/// Whether the instruction can send the program counter anywhere but to
/// the instruction that follows it.
pub open spec fn is_branch(instruction: Instruction) -> bool {
    match instruction {
        Instruction::JumpRelative => true,
        Instruction::JumpRelativeIf(_) => true,
        Instruction::Jump => true,
        Instruction::JumpIf(_) => true,
        Instruction::JumpToHL => true,
        Instruction::Call => true,
        Instruction::CallIf(_) => true,
        Instruction::Return => true,
        Instruction::ReturnIf(_) => true,
        Instruction::ReturnFromInterrupt => true,
        Instruction::Restart(_) => true,
        _ => false,
    }
}

/// Whether the instruction can change a flag.
pub open spec fn sets_flags(instruction: Instruction) -> bool {
    match instruction {
        Instruction::AddToHL(_) => true,
        Instruction::Increment8(_) => true,
        Instruction::Decrement8(_) => true,
        Instruction::RotateAccumulatorLeft => true,
        Instruction::RotateAccumulatorRight => true,
        Instruction::RotateAccumulatorLeftThroughCarry => true,
        Instruction::RotateAccumulatorRightThroughCarry => true,
        Instruction::DecimalAdjust => true,
        Instruction::Complement => true,
        Instruction::SetCarry => true,
        Instruction::ComplementCarry => true,
        Instruction::Arithmetic8(_, _) => true,
        Instruction::ArithmeticImmediate(_) => true,
        Instruction::AddToStackPointer => true,
        Instruction::LoadHLFromStackPointer => true,
        Instruction::Pop(pair) => pair == StackRegister16::AF,
        Instruction::Shift8(_, _) => true,
        Instruction::TestBit(_, _) => true,
        _ => false,
    }
}

/// Whether the instruction can write to the bus.
pub open spec fn writes_bus(instruction: Instruction) -> bool {
    match instruction {
        Instruction::StoreAccumulator(_) => true,
        Instruction::StoreStackPointer => true,
        Instruction::StoreHighAtC => true,
        Instruction::StoreHigh => true,
        Instruction::StoreAbsolute => true,
        Instruction::Push(_) => true,
        Instruction::Call => true,
        Instruction::CallIf(_) => true,
        Instruction::Restart(_) => true,
        Instruction::Increment8(target) => target == Register8::HLIndirect,
        Instruction::Decrement8(target) => target == Register8::HLIndirect,
        Instruction::LoadImmediate8(target) => target == Register8::HLIndirect,
        Instruction::Load8(target, _) => target == Register8::HLIndirect,
        Instruction::Shift8(_, target) => target == Register8::HLIndirect,
        Instruction::ResetBit(_, target) => target == Register8::HLIndirect,
        Instruction::SetBit(_, target) => target == Register8::HLIndirect,
        _ => false,
    }
}

/// An instruction that is no jump, call or return leaves the program
/// counter where it found it: just past the instruction. So does a
/// conditional one that does not go ahead.
pub proof fn lemma_effect_keeps_program_counter<C: CircuitryInterface>(
    instruction: Instruction,
    operand: u16,
    registers: CPURegisters,
    bus: C,
)
    requires
        !is_branch(instruction) || !spec_taken(instruction, registers.f),
    ensures
        spec_effect(instruction, operand, registers, bus).0.pc == registers.pc,
{
}

/// Only the instructions that compute something, and the one that pops the
/// flags from the stack, change a flag.
pub proof fn lemma_effect_keeps_flags<C: CircuitryInterface>(
    instruction: Instruction,
    operand: u16,
    registers: CPURegisters,
    bus: C,
)
    requires
        !sets_flags(instruction),
    ensures
        spec_effect(instruction, operand, registers, bus).0.f == registers.f,
{
}

/// Only stores, pushes, calls and instructions whose target is the byte at
/// HL write to the bus.
pub proof fn lemma_effect_keeps_bus<C: CircuitryInterface>(
    instruction: Instruction,
    operand: u16,
    registers: CPURegisters,
    bus: C,
)
    requires
        !writes_bus(instruction),
    ensures
        spec_effect(instruction, operand, registers, bus).1 == bus,
{
}

/// A conditional jump, call or return that does not go ahead changes
/// nothing at all.
pub proof fn lemma_effect_of_branch_not_taken<C: CircuitryInterface>(
    instruction: Instruction,
    operand: u16,
    registers: CPURegisters,
    bus: C,
)
    requires
        !spec_taken(instruction, registers.f),
    ensures
        spec_effect(instruction, operand, registers, bus) == (registers, bus),
{
}

} // verus!
