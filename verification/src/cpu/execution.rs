//! Carrying out instructions on the registers and the bus.
//!
//! As in the model, the registers come with the program counter already
//! past the instruction, and the operand bytes come as one value.

use vstd::prelude::*;
use crate::circuitry::interface::CircuitryInterface;
use crate::cpu::effect::{
    flags,
    spec_arithmetic,
    spec_decimal_adjust,
    spec_effect,
    spec_high_address,
    spec_holds,
    spec_offset,
    spec_pop16,
    spec_push16,
    spec_read16,
    spec_read8,
    spec_read_stack16,
    spec_shift,
    spec_signed,
    spec_taken,
    spec_transfer_address,
    spec_transfer_step,
    spec_write16,
    spec_write8,
    spec_write_stack16,
};
use crate::cpu::instruction::Instruction;
use crate::cpu::operands::{
    ArithmeticOperation,
    Condition,
    MemoryRegister16,
    Register16,
    Register8,
    ShiftOperation,
    StackRegister16,
};
use crate::cpu::registers::flags::CPUFlagsRegister;
use crate::cpu::registers::{CPURegisters, CpuRegistersAccessTrait};
use crate::helpers::bit_operations::{
    add_carry_u8,
    add_u16,
    add_u16_i8,
    add_u8,
    construct_u16,
    deconstruct_u16,
    get_bit_u8,
    rotate_left_get_carry_u8,
    rotate_left_through_carry_u8,
    rotate_right_get_carry_u8,
    rotate_right_through_carry_u8,
    set_bit_u8,
    sub_carry_u8,
    sub_u8,
};

verus! {

/// The address `distance` places after `address`, wrapping at the end of
/// the address space.
pub fn offset_up(address: u16, distance: u16) -> (moved: u16)
    ensures
        moved == spec_offset(address, distance as int),
{
    address.wrapping_add(distance)
}

/// The address `distance` places before `address`, wrapping at the start of
/// the address space.
pub fn offset_down(address: u16, distance: u16) -> (moved: u16)
    ensures
        moved == spec_offset(address, -(distance as int)),
{
    address.wrapping_sub(distance)
}

/// Reads a byte as a signed number in two's complement.
pub fn signed(value: u8) -> (number: i8)
    ensures
        number == spec_signed(value),
{
    if value < 128 {
        value as i8
    } else {
        (value as i16 - 256) as i8
    }
}

/// The address in the last page of the bus that an 8-bit offset names.
pub fn high_address(low: u8) -> (address: u16)
    ensures
        address == spec_high_address(low),
{
    construct_u16(low, 0xFF)
}

/// Tests a condition on the flags.
pub fn holds(condition: Condition, flags: &CPUFlagsRegister) -> (holds: bool)
    ensures
        holds == spec_holds(condition, *flags),
{
    match condition {
        Condition::NotZero => !flags.get_zero(),
        Condition::Zero => flags.get_zero(),
        Condition::NotCarry => !flags.get_carry(),
        Condition::Carry => flags.get_carry(),
    }
}

/// Tells whether a conditional jump, call or return goes ahead.
pub fn taken(instruction: Instruction, flags: &CPUFlagsRegister) -> (taken: bool)
    ensures
        taken == spec_taken(instruction, *flags),
{
    match instruction {
        Instruction::JumpRelativeIf(condition) => holds(condition, flags),
        Instruction::ReturnIf(condition) => holds(condition, flags),
        Instruction::JumpIf(condition) => holds(condition, flags),
        Instruction::CallIf(condition) => holds(condition, flags),
        _ => true,
    }
}

/// Reads an 8-bit operand.
pub fn read8<C: CircuitryInterface>(
    registers: &CPURegisters,
    bus: &C,
    operand: Register8,
) -> (value: u8)
    ensures
        value == spec_read8(*registers, *bus, operand),
{
    match operand {
        Register8::B => registers.get_b(),
        Register8::C => registers.get_c(),
        Register8::D => registers.get_d(),
        Register8::E => registers.get_e(),
        Register8::H => registers.get_h(),
        Register8::L => registers.get_l(),
        Register8::HLIndirect => bus.read(registers.get_hl()),
        Register8::A => registers.get_a(),
    }
}

/// Writes an 8-bit operand.
pub fn write8<C: CircuitryInterface>(
    registers: &mut CPURegisters,
    bus: &mut C,
    operand: Register8,
    value: u8,
)
    ensures
        (*final(registers), *final(bus)) == spec_write8(
            *old(registers),
            *old(bus),
            operand,
            value,
        ),
{
    match operand {
        Register8::B => registers.set_b(value),
        Register8::C => registers.set_c(value),
        Register8::D => registers.set_d(value),
        Register8::E => registers.set_e(value),
        Register8::H => registers.set_h(value),
        Register8::L => registers.set_l(value),
        Register8::HLIndirect => {
            let address = registers.get_hl();
            bus.write(address, value);
        },
        Register8::A => registers.set_a(value),
    }
}

/// Reads a 16-bit operand.
pub fn read16(registers: &CPURegisters, pair: Register16) -> (value: u16)
    ensures
        value == spec_read16(*registers, pair),
{
    match pair {
        Register16::BC => registers.get_bc(),
        Register16::DE => registers.get_de(),
        Register16::HL => registers.get_hl(),
        Register16::SP => registers.get_sp(),
    }
}

/// Writes a 16-bit operand.
pub fn write16(registers: &mut CPURegisters, pair: Register16, value: u16)
    ensures
        *final(registers) == spec_write16(*old(registers), pair, value),
{
    match pair {
        Register16::BC => registers.set_bc(value),
        Register16::DE => registers.set_de(value),
        Register16::HL => registers.set_hl(value),
        Register16::SP => registers.set_sp(value),
    }
}

/// Reads a pair that the stack instructions name.
pub fn read_stack16(registers: &CPURegisters, pair: StackRegister16) -> (value: u16)
    ensures
        value == spec_read_stack16(*registers, pair),
{
    match pair {
        StackRegister16::BC => registers.get_bc(),
        StackRegister16::DE => registers.get_de(),
        StackRegister16::HL => registers.get_hl(),
        StackRegister16::AF => registers.get_af(),
    }
}

/// Writes a pair that the stack instructions name.
pub fn write_stack16(registers: &mut CPURegisters, pair: StackRegister16, value: u16)
    ensures
        *final(registers) == spec_write_stack16(*old(registers), pair, value),
{
    match pair {
        StackRegister16::BC => registers.set_bc(value),
        StackRegister16::DE => registers.set_de(value),
        StackRegister16::HL => registers.set_hl(value),
        StackRegister16::AF => registers.set_af(value),
    }
}

/// Pushes a 16-bit value on the stack.
pub fn push16<C: CircuitryInterface>(registers: &mut CPURegisters, bus: &mut C, value: u16)
    ensures
        (*final(registers), *final(bus)) == spec_push16(*old(registers), *old(bus), value),
{
    let (low, high) = deconstruct_u16(value);
    registers.decrement_sp();
    bus.write(registers.get_sp(), high);
    registers.decrement_sp();
    bus.write(registers.get_sp(), low);
}

/// Pops a 16-bit value from the stack.
pub fn pop16<C: CircuitryInterface>(registers: &mut CPURegisters, bus: &C) -> (value: u16)
    ensures
        (value, *final(registers)) == spec_pop16(*old(registers), *bus),
{
    let low = bus.read(registers.get_sp());
    registers.increment_sp();
    let high = bus.read(registers.get_sp());
    registers.increment_sp();
    construct_u16(low, high)
}

/// Carries out an operation of the accumulator with `value`.
pub fn arithmetic(operation: ArithmeticOperation, registers: &mut CPURegisters, value: u8)
    ensures
        *final(registers) == spec_arithmetic(operation, *old(registers), value),
{
    let a = registers.get_a();
    let carry = registers.get_f_carry();
    match operation {
        ArithmeticOperation::Add => {
            let (result, half_carry, carry) = add_u8(a, value);
            registers.set_a(result);
            set_flags(registers, result == 0, false, half_carry, carry);
        },
        ArithmeticOperation::AddCarry => {
            let (result, half_carry, carry) = add_carry_u8(a, value, carry);
            registers.set_a(result);
            set_flags(registers, result == 0, false, half_carry, carry);
        },
        ArithmeticOperation::Subtract => {
            let (result, half_carry, carry) = sub_u8(a, value);
            registers.set_a(result);
            set_flags(registers, result == 0, true, half_carry, carry);
        },
        ArithmeticOperation::SubtractCarry => {
            let (result, half_carry, carry) = sub_carry_u8(a, value, carry);
            registers.set_a(result);
            set_flags(registers, result == 0, true, half_carry, carry);
        },
        ArithmeticOperation::And => {
            let result = a & value;
            registers.set_a(result);
            set_flags(registers, result == 0, false, true, false);
        },
        ArithmeticOperation::Xor => {
            let result = a ^ value;
            registers.set_a(result);
            set_flags(registers, result == 0, false, false, false);
        },
        ArithmeticOperation::Or => {
            let result = a | value;
            registers.set_a(result);
            set_flags(registers, result == 0, false, false, false);
        },
        ArithmeticOperation::Compare => {
            let (result, half_carry, carry) = sub_u8(a, value);
            set_flags(registers, result == 0, true, half_carry, carry);
        },
    }
}

/// Writes all four flags.
pub fn set_flags(
    registers: &mut CPURegisters,
    zero: bool,
    subtract: bool,
    half_carry: bool,
    carry: bool,
)
    ensures
        *final(registers) == (CPURegisters {
            f: flags(zero, subtract, half_carry, carry),
            ..*old(registers)
        }),
{
    registers.set_f_zero(zero);
    registers.set_f_subtract(subtract);
    registers.set_f_half_carry(half_carry);
    registers.set_f_carry(carry);
}

/// Rotates or shifts `value`; `carry` is the carry flag before.
pub fn shift(operation: ShiftOperation, value: u8, carry: bool) -> (shifted: (u8, bool))
    ensures
        shifted == spec_shift(operation, value, carry),
{
    match operation {
        ShiftOperation::RotateLeft => rotate_left_get_carry_u8(value),
        ShiftOperation::RotateRight => rotate_right_get_carry_u8(value),
        ShiftOperation::RotateLeftThroughCarry => rotate_left_through_carry_u8(value, carry),
        ShiftOperation::RotateRightThroughCarry => rotate_right_through_carry_u8(value, carry),
        ShiftOperation::ShiftLeft => rotate_left_through_carry_u8(value, false),
        ShiftOperation::ShiftRightArithmetic => rotate_right_through_carry_u8(value, value >= 128),
        ShiftOperation::Swap => ((value % 16) * 16 + value / 16, false),
        ShiftOperation::ShiftRightLogical => rotate_right_through_carry_u8(value, false),
    }
}

/// Corrects the accumulator to two decimal digits.
pub fn decimal_adjust(registers: &mut CPURegisters)
    ensures
        *final(registers) == spec_decimal_adjust(*old(registers)),
{
    let a = registers.get_a();
    let subtract = registers.get_f_subtract();
    let fix_low = registers.get_f_half_carry() || (!subtract && a % 16 > 9);
    let fix_high = registers.get_f_carry() || (!subtract && a > 0x99);
    let low: u8 = if fix_low { 0x06 } else { 0x00 };
    let high: u8 = if fix_high { 0x60 } else { 0x00 };
    let result = if subtract {
        a.wrapping_sub(low).wrapping_sub(high)
    } else {
        a.wrapping_add(low).wrapping_add(high)
    };
    registers.set_a(result);
    set_flags(registers, result == 0, subtract, false, fix_high);
}

/// Whether the instruction moves a value between registers and the bus and changes no flag.
pub open spec fn is_transfer(instruction: Instruction) -> bool {
    match instruction {
        Instruction::LoadImmediate16(_) => true,
        Instruction::StoreAccumulator(_) => true,
        Instruction::LoadAccumulator(_) => true,
        Instruction::StoreStackPointer => true,
        Instruction::LoadImmediate8(_) => true,
        Instruction::Load8(_, _) => true,
        Instruction::Pop(_) => true,
        Instruction::Push(_) => true,
        Instruction::StoreHighAtC => true,
        Instruction::StoreHigh => true,
        Instruction::StoreAbsolute => true,
        Instruction::LoadHighAtC => true,
        Instruction::LoadHigh => true,
        Instruction::LoadAbsolute => true,
        Instruction::LoadStackPointerFromHL => true,
        _ => false,
    }
}

/// Whether the instruction computes a value and sets flags.
pub open spec fn is_calculation(instruction: Instruction) -> bool {
    match instruction {
        Instruction::Increment16(_) => true,
        Instruction::Decrement16(_) => true,
        Instruction::AddToHL(_) => true,
        Instruction::Increment8(_) => true,
        Instruction::Decrement8(_) => true,
        Instruction::RotateAccumulatorLeft => true,
        Instruction::RotateAccumulatorRight => true,
        Instruction::RotateAccumulatorLeftThroughCarry => true,
        Instruction::RotateAccumulatorRightThroughCarry => true,
        Instruction::DecimalAdjust => true,
        Instruction::Complement => true,
        Instruction::SetCarry => true,
        Instruction::ComplementCarry => true,
        Instruction::Arithmetic8(_, _) => true,
        Instruction::ArithmeticImmediate(_) => true,
        Instruction::AddToStackPointer => true,
        Instruction::LoadHLFromStackPointer => true,
        _ => false,
    }
}

/// Whether the instruction steers the program counter, or asks something of the machine.
pub open spec fn is_control(instruction: Instruction) -> bool {
    match instruction {
        Instruction::NoOperation => true,
        Instruction::Stop => true,
        Instruction::Halt => true,
        Instruction::DisableInterrupts => true,
        Instruction::EnableInterrupts => true,
        Instruction::JumpRelative => true,
        Instruction::JumpRelativeIf(_) => true,
        Instruction::ReturnIf(_) => true,
        Instruction::Return => true,
        Instruction::ReturnFromInterrupt => true,
        Instruction::JumpIf(_) => true,
        Instruction::Jump => true,
        Instruction::JumpToHL => true,
        Instruction::CallIf(_) => true,
        Instruction::Call => true,
        Instruction::Restart(_) => true,
        _ => false,
    }
}

/// Whether the instruction belongs to the second opcode table.
pub open spec fn is_bits(instruction: Instruction) -> bool {
    match instruction {
        Instruction::Shift8(_, _) => true,
        Instruction::TestBit(_, _) => true,
        Instruction::ResetBit(_, _) => true,
        Instruction::SetBit(_, _) => true,
        _ => false,
    }
}

fn execute_transfer<C: CircuitryInterface>(
    instruction: Instruction,
    operand: u16,
    registers: &mut CPURegisters,
    bus: &mut C,
)
    requires
        is_transfer(instruction),
        instruction.well_formed(),
    ensures
        (*final(registers), *final(bus)) == spec_effect(
            instruction,
            operand,
            *old(registers),
            *old(bus),
        ),
{
    let operand8 = deconstruct_u16(operand).0;
    match instruction {
        Instruction::LoadImmediate16(pair) => write16(registers, pair, operand),
        Instruction::StoreAccumulator(pair) => {
            let address = transfer_address(registers, pair);
            bus.write(address, registers.get_a());
            transfer_step(registers, pair);
        },
        Instruction::LoadAccumulator(pair) => {
            let address = transfer_address(registers, pair);
            registers.set_a(bus.read(address));
            transfer_step(registers, pair);
        },
        Instruction::StoreStackPointer => {
            let (low, high) = deconstruct_u16(registers.get_sp());
            bus.write(operand, low);
            bus.write(offset_up(operand, 1), high);
        },
        Instruction::LoadImmediate8(target) => write8(registers, bus, target, operand8),
        Instruction::Load8(to, from) => {
            let value = read8(registers, bus, from);
            write8(registers, bus, to, value);
        },
        Instruction::Pop(pair) => {
            let value = pop16(registers, bus);
            write_stack16(registers, pair, value);
        },
        Instruction::Push(pair) => {
            let value = read_stack16(registers, pair);
            push16(registers, bus, value);
        },
        Instruction::StoreHighAtC => bus.write(high_address(registers.get_c()), registers.get_a()),
        Instruction::StoreHigh => bus.write(high_address(operand8), registers.get_a()),
        Instruction::StoreAbsolute => bus.write(operand, registers.get_a()),
        Instruction::LoadHighAtC => {
            let value = bus.read(high_address(registers.get_c()));
            registers.set_a(value);
        },
        Instruction::LoadHigh => {
            let value = bus.read(high_address(operand8));
            registers.set_a(value);
        },
        Instruction::LoadAbsolute => {
            let value = bus.read(operand);
            registers.set_a(value);
        },
        Instruction::LoadStackPointerFromHL => {
            let value = registers.get_hl();
            registers.set_sp(value);
        },
        _ => {},
    }
}

/// The address that an accumulator transfer uses.
pub fn transfer_address(registers: &CPURegisters, pair: MemoryRegister16) -> (address: u16)
    ensures
        address == spec_transfer_address(*registers, pair),
{
    match pair {
        MemoryRegister16::BC => registers.get_bc(),
        MemoryRegister16::DE => registers.get_de(),
        MemoryRegister16::HLIncrement => registers.get_hl(),
        MemoryRegister16::HLDecrement => registers.get_hl(),
    }
}

/// Moves HL after an accumulator transfer, where the transfer asks for it.
pub fn transfer_step(registers: &mut CPURegisters, pair: MemoryRegister16)
    ensures
        *final(registers) == spec_transfer_step(*old(registers), pair),
{
    match pair {
        MemoryRegister16::BC => {},
        MemoryRegister16::DE => {},
        MemoryRegister16::HLIncrement => {
            let moved = offset_up(registers.get_hl(), 1);
            registers.set_hl(moved);
        },
        MemoryRegister16::HLDecrement => {
            let moved = offset_down(registers.get_hl(), 1);
            registers.set_hl(moved);
        },
    }
}

fn execute_calculation<C: CircuitryInterface>(
    instruction: Instruction,
    operand: u16,
    registers: &mut CPURegisters,
    bus: &mut C,
)
    requires
        is_calculation(instruction),
        instruction.well_formed(),
    ensures
        (*final(registers), *final(bus)) == spec_effect(
            instruction,
            operand,
            *old(registers),
            *old(bus),
        ),
{
    let operand8 = deconstruct_u16(operand).0;
    let zero = registers.get_f_zero();
    let carry = registers.get_f_carry();
    match instruction {
        Instruction::Increment16(pair) => {
            let value = offset_up(read16(registers, pair), 1);
            write16(registers, pair, value);
        },
        Instruction::Decrement16(pair) => {
            let value = offset_down(read16(registers, pair), 1);
            write16(registers, pair, value);
        },
        Instruction::AddToHL(pair) => {
            let (result, half_carry, carry) = add_u16(registers.get_hl(), read16(registers, pair));
            registers.set_hl(result);
            set_flags(registers, zero, false, half_carry, carry);
        },
        Instruction::Increment8(target) => {
            let (result, half_carry, _) = add_u8(read8(registers, bus, target), 1);
            set_flags(registers, result == 0, false, half_carry, carry);
            write8(registers, bus, target, result);
        },
        Instruction::Decrement8(target) => {
            let (result, half_carry, _) = sub_u8(read8(registers, bus, target), 1);
            set_flags(registers, result == 0, true, half_carry, carry);
            write8(registers, bus, target, result);
        },
        Instruction::RotateAccumulatorLeft => {
            let (result, carry) = rotate_left_get_carry_u8(registers.get_a());
            registers.set_a(result);
            set_flags(registers, false, false, false, carry);
        },
        Instruction::RotateAccumulatorRight => {
            let (result, carry) = rotate_right_get_carry_u8(registers.get_a());
            registers.set_a(result);
            set_flags(registers, false, false, false, carry);
        },
        Instruction::RotateAccumulatorLeftThroughCarry => {
            let (result, carry) = rotate_left_through_carry_u8(registers.get_a(), carry);
            registers.set_a(result);
            set_flags(registers, false, false, false, carry);
        },
        Instruction::RotateAccumulatorRightThroughCarry => {
            let (result, carry) = rotate_right_through_carry_u8(registers.get_a(), carry);
            registers.set_a(result);
            set_flags(registers, false, false, false, carry);
        },
        Instruction::DecimalAdjust => decimal_adjust(registers),
        Instruction::Complement => {
            let result = !registers.get_a();
            registers.set_a(result);
            set_flags(registers, zero, true, true, carry);
        },
        Instruction::SetCarry => set_flags(registers, zero, false, false, true),
        Instruction::ComplementCarry => set_flags(registers, zero, false, false, !carry),
        Instruction::Arithmetic8(operation, source) => {
            let value = read8(registers, bus, source);
            arithmetic(operation, registers, value);
        },
        Instruction::ArithmeticImmediate(operation) => arithmetic(operation, registers, operand8),
        Instruction::AddToStackPointer => {
            let (result, half_carry, carry) = add_u16_i8(registers.get_sp(), signed(operand8));
            registers.set_sp(result);
            set_flags(registers, false, false, half_carry, carry);
        },
        Instruction::LoadHLFromStackPointer => {
            let (result, half_carry, carry) = add_u16_i8(registers.get_sp(), signed(operand8));
            registers.set_hl(result);
            set_flags(registers, false, false, half_carry, carry);
        },
        _ => {},
    }
}

fn execute_control<C: CircuitryInterface>(
    instruction: Instruction,
    operand: u16,
    registers: &mut CPURegisters,
    bus: &mut C,
)
    requires
        is_control(instruction),
        instruction.well_formed(),
    ensures
        (*final(registers), *final(bus)) == spec_effect(
            instruction,
            operand,
            *old(registers),
            *old(bus),
        ),
{
    let operand8 = deconstruct_u16(operand).0;
    let goes_ahead = taken(instruction, &registers.f);
    match instruction {
        Instruction::JumpRelative => {
            let target = add_u16_i8(registers.get_pc(), signed(operand8)).0;
            registers.set_pc(target);
        },
        Instruction::JumpRelativeIf(_) => {
            if goes_ahead {
                let target = add_u16_i8(registers.get_pc(), signed(operand8)).0;
                registers.set_pc(target);
            }
        },
        Instruction::ReturnIf(_) => {
            if goes_ahead {
                let target = pop16(registers, bus);
                registers.set_pc(target);
            }
        },
        Instruction::Return => {
            let target = pop16(registers, bus);
            registers.set_pc(target);
        },
        Instruction::ReturnFromInterrupt => {
            let target = pop16(registers, bus);
            registers.set_pc(target);
        },
        Instruction::JumpIf(_) => {
            if goes_ahead {
                registers.set_pc(operand);
            }
        },
        Instruction::Jump => registers.set_pc(operand),
        Instruction::JumpToHL => {
            let target = registers.get_hl();
            registers.set_pc(target);
        },
        Instruction::CallIf(_) => {
            if goes_ahead {
                let next = registers.get_pc();
                push16(registers, bus, next);
                registers.set_pc(operand);
            }
        },
        Instruction::Call => {
            let next = registers.get_pc();
            push16(registers, bus, next);
            registers.set_pc(operand);
        },
        Instruction::Restart(target) => {
            let next = registers.get_pc();
            push16(registers, bus, next);
            registers.set_pc(target as u16);
        },
        _ => {},
    }
}

fn execute_bits<C: CircuitryInterface>(
    instruction: Instruction,
    operand: u16,
    registers: &mut CPURegisters,
    bus: &mut C,
)
    requires
        is_bits(instruction),
        instruction.well_formed(),
    ensures
        (*final(registers), *final(bus)) == spec_effect(
            instruction,
            operand,
            *old(registers),
            *old(bus),
        ),
{
    let carry = registers.get_f_carry();
    match instruction {
        Instruction::Shift8(operation, target) => {
            let (result, carry) = shift(operation, read8(registers, bus, target), carry);
            set_flags(registers, result == 0, false, false, carry);
            write8(registers, bus, target, result);
        },
        Instruction::TestBit(bit, source) => {
            let set = get_bit_u8(read8(registers, bus, source), bit as usize);
            set_flags(registers, !set, false, true, carry);
        },
        Instruction::ResetBit(bit, target) => {
            let value = set_bit_u8(read8(registers, bus, target), bit as usize, false);
            write8(registers, bus, target, value);
        },
        Instruction::SetBit(bit, target) => {
            let value = set_bit_u8(read8(registers, bus, target), bit as usize, true);
            write8(registers, bus, target, value);
        },
        _ => {},
    }
}

/// Carries out one instruction and tells how many machine cycles it cost.
/// `registers` holds the program counter already past the instruction, and
/// `operand` the operand bytes that followed the opcode.
pub fn execute<C: CircuitryInterface>(
    instruction: Instruction,
    operand: u16,
    registers: &mut CPURegisters,
    bus: &mut C,
) -> (cycles: u8)
    requires
        instruction.well_formed(),
    ensures
        (*final(registers), *final(bus)) == spec_effect(
            instruction,
            operand,
            *old(registers),
            *old(bus),
        ),
        cycles == instruction.spec_cycles(spec_taken(instruction, old(registers).f)),
{
    let goes_ahead = taken(instruction, &registers.f);
    match instruction {
        Instruction::LoadImmediate16(_) => execute_transfer(instruction, operand, registers, bus),
        Instruction::StoreAccumulator(_) => execute_transfer(instruction, operand, registers, bus),
        Instruction::LoadAccumulator(_) => execute_transfer(instruction, operand, registers, bus),
        Instruction::StoreStackPointer => execute_transfer(instruction, operand, registers, bus),
        Instruction::LoadImmediate8(_) => execute_transfer(instruction, operand, registers, bus),
        Instruction::Load8(_, _) => execute_transfer(instruction, operand, registers, bus),
        Instruction::Pop(_) => execute_transfer(instruction, operand, registers, bus),
        Instruction::Push(_) => execute_transfer(instruction, operand, registers, bus),
        Instruction::StoreHighAtC => execute_transfer(instruction, operand, registers, bus),
        Instruction::StoreHigh => execute_transfer(instruction, operand, registers, bus),
        Instruction::StoreAbsolute => execute_transfer(instruction, operand, registers, bus),
        Instruction::LoadHighAtC => execute_transfer(instruction, operand, registers, bus),
        Instruction::LoadHigh => execute_transfer(instruction, operand, registers, bus),
        Instruction::LoadAbsolute => execute_transfer(instruction, operand, registers, bus),
        Instruction::LoadStackPointerFromHL => execute_transfer(
            instruction,
            operand,
            registers,
            bus,
        ),
        Instruction::Increment16(_) => execute_calculation(instruction, operand, registers, bus),
        Instruction::Decrement16(_) => execute_calculation(instruction, operand, registers, bus),
        Instruction::AddToHL(_) => execute_calculation(instruction, operand, registers, bus),
        Instruction::Increment8(_) => execute_calculation(instruction, operand, registers, bus),
        Instruction::Decrement8(_) => execute_calculation(instruction, operand, registers, bus),
        Instruction::RotateAccumulatorLeft => execute_calculation(
            instruction,
            operand,
            registers,
            bus,
        ),
        Instruction::RotateAccumulatorRight => execute_calculation(
            instruction,
            operand,
            registers,
            bus,
        ),
        Instruction::RotateAccumulatorLeftThroughCarry => execute_calculation(
            instruction,
            operand,
            registers,
            bus,
        ),
        Instruction::RotateAccumulatorRightThroughCarry => execute_calculation(
            instruction,
            operand,
            registers,
            bus,
        ),
        Instruction::DecimalAdjust => execute_calculation(instruction, operand, registers, bus),
        Instruction::Complement => execute_calculation(instruction, operand, registers, bus),
        Instruction::SetCarry => execute_calculation(instruction, operand, registers, bus),
        Instruction::ComplementCarry => execute_calculation(instruction, operand, registers, bus),
        Instruction::Arithmetic8(_, _) => execute_calculation(instruction, operand, registers, bus),
        Instruction::ArithmeticImmediate(_) => execute_calculation(
            instruction,
            operand,
            registers,
            bus,
        ),
        Instruction::AddToStackPointer => execute_calculation(instruction, operand, registers, bus),
        Instruction::LoadHLFromStackPointer => execute_calculation(
            instruction,
            operand,
            registers,
            bus,
        ),
        Instruction::NoOperation => execute_control(instruction, operand, registers, bus),
        Instruction::Stop => execute_control(instruction, operand, registers, bus),
        Instruction::Halt => execute_control(instruction, operand, registers, bus),
        Instruction::DisableInterrupts => execute_control(instruction, operand, registers, bus),
        Instruction::EnableInterrupts => execute_control(instruction, operand, registers, bus),
        Instruction::JumpRelative => execute_control(instruction, operand, registers, bus),
        Instruction::JumpRelativeIf(_) => execute_control(instruction, operand, registers, bus),
        Instruction::ReturnIf(_) => execute_control(instruction, operand, registers, bus),
        Instruction::Return => execute_control(instruction, operand, registers, bus),
        Instruction::ReturnFromInterrupt => execute_control(instruction, operand, registers, bus),
        Instruction::JumpIf(_) => execute_control(instruction, operand, registers, bus),
        Instruction::Jump => execute_control(instruction, operand, registers, bus),
        Instruction::JumpToHL => execute_control(instruction, operand, registers, bus),
        Instruction::CallIf(_) => execute_control(instruction, operand, registers, bus),
        Instruction::Call => execute_control(instruction, operand, registers, bus),
        Instruction::Restart(_) => execute_control(instruction, operand, registers, bus),
        Instruction::Shift8(_, _) => execute_bits(instruction, operand, registers, bus),
        Instruction::TestBit(_, _) => execute_bits(instruction, operand, registers, bus),
        Instruction::ResetBit(_, _) => execute_bits(instruction, operand, registers, bus),
        Instruction::SetBit(_, _) => execute_bits(instruction, operand, registers, bus),
    }
    instruction.cycles(goes_ahead)
}

} // verus!
