use gameboy_core::cpu::instruction::Instruction;
use gameboy_core::cpu::operands::{
    ArithmeticOperation, Condition, MemoryRegister16, Register16, Register8, ShiftOperation,
    StackRegister16, PREFIX,
};

const UNASSIGNED: [u8; 11] = [0xD3, 0xDB, 0xDD, 0xE3, 0xE4, 0xEB, 0xEC, 0xED, 0xF4, 0xFC, 0xFD];

#[test]
fn unassigned_opcodes_decode_to_nothing() {
    for opcode in 0..=255u8 {
        let expected_none = UNASSIGNED.contains(&opcode) || opcode == PREFIX;
        assert_eq!(Instruction::decode(opcode).is_none(), expected_none);
    }
}

#[test]
fn prefix_is_0xcb() {
    assert_eq!(PREFIX, 0xCB);
    assert_eq!(Instruction::decode(0xCB), None);
}

#[test]
fn operand_codes_follow_the_opcode_fields() {
    let registers = [
        Register8::B,
        Register8::C,
        Register8::D,
        Register8::E,
        Register8::H,
        Register8::L,
        Register8::HLIndirect,
        Register8::A,
    ];
    for (code, register) in registers.iter().enumerate() {
        assert_eq!(Register8::from_code(code as u8), *register);
        assert_eq!(Register8::from_code(code as u8 + 8), Register8::A);
    }
    assert_eq!(Register16::from_code(0), Register16::BC);
    assert_eq!(Register16::from_code(1), Register16::DE);
    assert_eq!(Register16::from_code(2), Register16::HL);
    assert_eq!(Register16::from_code(3), Register16::SP);
    assert_eq!(Register16::from_code(4), Register16::SP);
    assert_eq!(StackRegister16::from_code(3), StackRegister16::AF);
    assert_eq!(MemoryRegister16::from_code(2), MemoryRegister16::HLIncrement);
    assert_eq!(MemoryRegister16::from_code(3), MemoryRegister16::HLDecrement);
    assert_eq!(Condition::from_code(0), Condition::NotZero);
    assert_eq!(Condition::from_code(1), Condition::Zero);
    assert_eq!(Condition::from_code(2), Condition::NotCarry);
    assert_eq!(Condition::from_code(3), Condition::Carry);
    assert_eq!(ArithmeticOperation::from_code(1), ArithmeticOperation::AddCarry);
    assert_eq!(ArithmeticOperation::from_code(7), ArithmeticOperation::Compare);
    assert_eq!(ShiftOperation::from_code(6), ShiftOperation::Swap);
    assert_eq!(ShiftOperation::from_code(7), ShiftOperation::ShiftRightLogical);
}

#[test]
fn first_quarter_decodes() {
    assert_eq!(Instruction::decode(0x00), Some(Instruction::NoOperation));
    assert_eq!(Instruction::decode(0x01), Some(Instruction::LoadImmediate16(Register16::BC)));
    assert_eq!(Instruction::decode(0x31), Some(Instruction::LoadImmediate16(Register16::SP)));
    assert_eq!(Instruction::decode(0x02), Some(Instruction::StoreAccumulator(MemoryRegister16::BC)));
    assert_eq!(Instruction::decode(0x22), Some(Instruction::StoreAccumulator(MemoryRegister16::HLIncrement)));
    assert_eq!(Instruction::decode(0x3A), Some(Instruction::LoadAccumulator(MemoryRegister16::HLDecrement)));
    assert_eq!(Instruction::decode(0x1A), Some(Instruction::LoadAccumulator(MemoryRegister16::DE)));
    assert_eq!(Instruction::decode(0x08), Some(Instruction::StoreStackPointer));
    assert_eq!(Instruction::decode(0x03), Some(Instruction::Increment16(Register16::BC)));
    assert_eq!(Instruction::decode(0x3B), Some(Instruction::Decrement16(Register16::SP)));
    assert_eq!(Instruction::decode(0x29), Some(Instruction::AddToHL(Register16::HL)));
    assert_eq!(Instruction::decode(0x04), Some(Instruction::Increment8(Register8::B)));
    assert_eq!(Instruction::decode(0x34), Some(Instruction::Increment8(Register8::HLIndirect)));
    assert_eq!(Instruction::decode(0x3D), Some(Instruction::Decrement8(Register8::A)));
    assert_eq!(Instruction::decode(0x0E), Some(Instruction::LoadImmediate8(Register8::C)));
    assert_eq!(Instruction::decode(0x36), Some(Instruction::LoadImmediate8(Register8::HLIndirect)));
    assert_eq!(Instruction::decode(0x07), Some(Instruction::RotateAccumulatorLeft));
    assert_eq!(Instruction::decode(0x0F), Some(Instruction::RotateAccumulatorRight));
    assert_eq!(Instruction::decode(0x17), Some(Instruction::RotateAccumulatorLeftThroughCarry));
    assert_eq!(Instruction::decode(0x1F), Some(Instruction::RotateAccumulatorRightThroughCarry));
    assert_eq!(Instruction::decode(0x27), Some(Instruction::DecimalAdjust));
    assert_eq!(Instruction::decode(0x2F), Some(Instruction::Complement));
    assert_eq!(Instruction::decode(0x37), Some(Instruction::SetCarry));
    assert_eq!(Instruction::decode(0x3F), Some(Instruction::ComplementCarry));
    assert_eq!(Instruction::decode(0x10), Some(Instruction::Stop));
    assert_eq!(Instruction::decode(0x18), Some(Instruction::JumpRelative));
    assert_eq!(Instruction::decode(0x20), Some(Instruction::JumpRelativeIf(Condition::NotZero)));
    assert_eq!(Instruction::decode(0x28), Some(Instruction::JumpRelativeIf(Condition::Zero)));
    assert_eq!(Instruction::decode(0x30), Some(Instruction::JumpRelativeIf(Condition::NotCarry)));
    assert_eq!(Instruction::decode(0x38), Some(Instruction::JumpRelativeIf(Condition::Carry)));
}

#[test]
fn middle_quarters_decode() {
    assert_eq!(Instruction::decode(0x40), Some(Instruction::Load8(Register8::B, Register8::B)));
    assert_eq!(Instruction::decode(0x41), Some(Instruction::Load8(Register8::B, Register8::C)));
    assert_eq!(Instruction::decode(0x7E), Some(Instruction::Load8(Register8::A, Register8::HLIndirect)));
    assert_eq!(Instruction::decode(0x70), Some(Instruction::Load8(Register8::HLIndirect, Register8::B)));
    assert_eq!(Instruction::decode(0x76), Some(Instruction::Halt));
    assert_eq!(Instruction::decode(0x7F), Some(Instruction::Load8(Register8::A, Register8::A)));
    assert_eq!(Instruction::decode(0x80), Some(Instruction::Arithmetic8(ArithmeticOperation::Add, Register8::B)));
    assert_eq!(Instruction::decode(0x8E), Some(Instruction::Arithmetic8(ArithmeticOperation::AddCarry, Register8::HLIndirect)));
    assert_eq!(Instruction::decode(0x97), Some(Instruction::Arithmetic8(ArithmeticOperation::Subtract, Register8::A)));
    assert_eq!(Instruction::decode(0x99), Some(Instruction::Arithmetic8(ArithmeticOperation::SubtractCarry, Register8::C)));
    assert_eq!(Instruction::decode(0xA2), Some(Instruction::Arithmetic8(ArithmeticOperation::And, Register8::D)));
    assert_eq!(Instruction::decode(0xAF), Some(Instruction::Arithmetic8(ArithmeticOperation::Xor, Register8::A)));
    assert_eq!(Instruction::decode(0xB3), Some(Instruction::Arithmetic8(ArithmeticOperation::Or, Register8::E)));
    assert_eq!(Instruction::decode(0xBD), Some(Instruction::Arithmetic8(ArithmeticOperation::Compare, Register8::L)));
}

#[test]
fn last_quarter_decodes() {
    assert_eq!(Instruction::decode(0xC0), Some(Instruction::ReturnIf(Condition::NotZero)));
    assert_eq!(Instruction::decode(0xD8), Some(Instruction::ReturnIf(Condition::Carry)));
    assert_eq!(Instruction::decode(0xC9), Some(Instruction::Return));
    assert_eq!(Instruction::decode(0xD9), Some(Instruction::ReturnFromInterrupt));
    assert_eq!(Instruction::decode(0xC2), Some(Instruction::JumpIf(Condition::NotZero)));
    assert_eq!(Instruction::decode(0xDA), Some(Instruction::JumpIf(Condition::Carry)));
    assert_eq!(Instruction::decode(0xC3), Some(Instruction::Jump));
    assert_eq!(Instruction::decode(0xE9), Some(Instruction::JumpToHL));
    assert_eq!(Instruction::decode(0xC4), Some(Instruction::CallIf(Condition::NotZero)));
    assert_eq!(Instruction::decode(0xCC), Some(Instruction::CallIf(Condition::Zero)));
    assert_eq!(Instruction::decode(0xCD), Some(Instruction::Call));
    assert_eq!(Instruction::decode(0xC1), Some(Instruction::Pop(StackRegister16::BC)));
    assert_eq!(Instruction::decode(0xF1), Some(Instruction::Pop(StackRegister16::AF)));
    assert_eq!(Instruction::decode(0xC5), Some(Instruction::Push(StackRegister16::BC)));
    assert_eq!(Instruction::decode(0xF5), Some(Instruction::Push(StackRegister16::AF)));
    assert_eq!(Instruction::decode(0xC6), Some(Instruction::ArithmeticImmediate(ArithmeticOperation::Add)));
    assert_eq!(Instruction::decode(0xFE), Some(Instruction::ArithmeticImmediate(ArithmeticOperation::Compare)));
    assert_eq!(Instruction::decode(0xE0), Some(Instruction::StoreHigh));
    assert_eq!(Instruction::decode(0xF0), Some(Instruction::LoadHigh));
    assert_eq!(Instruction::decode(0xE2), Some(Instruction::StoreHighAtC));
    assert_eq!(Instruction::decode(0xF2), Some(Instruction::LoadHighAtC));
    assert_eq!(Instruction::decode(0xEA), Some(Instruction::StoreAbsolute));
    assert_eq!(Instruction::decode(0xFA), Some(Instruction::LoadAbsolute));
    assert_eq!(Instruction::decode(0xE8), Some(Instruction::AddToStackPointer));
    assert_eq!(Instruction::decode(0xF8), Some(Instruction::LoadHLFromStackPointer));
    assert_eq!(Instruction::decode(0xF9), Some(Instruction::LoadStackPointerFromHL));
    assert_eq!(Instruction::decode(0xF3), Some(Instruction::DisableInterrupts));
    assert_eq!(Instruction::decode(0xFB), Some(Instruction::EnableInterrupts));
    for row in 0..8u8 {
        assert_eq!(Instruction::decode(0xC7 + 8 * row), Some(Instruction::Restart(8 * row)));
    }
}

#[test]
fn prefixed_opcodes_decode() {
    assert_eq!(Instruction::decode_prefixed(0x00), Instruction::Shift8(ShiftOperation::RotateLeft, Register8::B));
    assert_eq!(Instruction::decode_prefixed(0x0E), Instruction::Shift8(ShiftOperation::RotateRight, Register8::HLIndirect));
    assert_eq!(Instruction::decode_prefixed(0x11), Instruction::Shift8(ShiftOperation::RotateLeftThroughCarry, Register8::C));
    assert_eq!(Instruction::decode_prefixed(0x19), Instruction::Shift8(ShiftOperation::RotateRightThroughCarry, Register8::C));
    assert_eq!(Instruction::decode_prefixed(0x27), Instruction::Shift8(ShiftOperation::ShiftLeft, Register8::A));
    assert_eq!(Instruction::decode_prefixed(0x2F), Instruction::Shift8(ShiftOperation::ShiftRightArithmetic, Register8::A));
    assert_eq!(Instruction::decode_prefixed(0x37), Instruction::Shift8(ShiftOperation::Swap, Register8::A));
    assert_eq!(Instruction::decode_prefixed(0x3F), Instruction::Shift8(ShiftOperation::ShiftRightLogical, Register8::A));
    assert_eq!(Instruction::decode_prefixed(0x40), Instruction::TestBit(0, Register8::B));
    assert_eq!(Instruction::decode_prefixed(0x7C), Instruction::TestBit(7, Register8::H));
    assert_eq!(Instruction::decode_prefixed(0x86), Instruction::ResetBit(0, Register8::HLIndirect));
    assert_eq!(Instruction::decode_prefixed(0xBF), Instruction::ResetBit(7, Register8::A));
    assert_eq!(Instruction::decode_prefixed(0xC0), Instruction::SetBit(0, Register8::B));
    assert_eq!(Instruction::decode_prefixed(0xFE), Instruction::SetBit(7, Register8::HLIndirect));
}

#[test]
fn no_two_opcodes_share_an_instruction() {
    for first in 0..=255u8 {
        for second in 0..first {
            if let (Some(one), Some(other)) = (Instruction::decode(first), Instruction::decode(second)) {
                assert_ne!(one, other);
            }
            assert_ne!(Instruction::decode_prefixed(first), Instruction::decode_prefixed(second));
        }
    }
}

#[test]
fn lengths_count_prefix_opcode_and_operands() {
    assert_eq!(Instruction::NoOperation.length(), 1);
    assert_eq!(Instruction::Load8(Register8::A, Register8::B).length(), 1);
    assert_eq!(Instruction::Return.length(), 1);
    assert_eq!(Instruction::Restart(0x38).length(), 1);
    assert_eq!(Instruction::LoadImmediate8(Register8::A).length(), 2);
    assert_eq!(Instruction::JumpRelative.length(), 2);
    assert_eq!(Instruction::JumpRelativeIf(Condition::Zero).length(), 2);
    assert_eq!(Instruction::Stop.length(), 2);
    assert_eq!(Instruction::ArithmeticImmediate(ArithmeticOperation::Xor).length(), 2);
    assert_eq!(Instruction::StoreHigh.length(), 2);
    assert_eq!(Instruction::LoadHigh.length(), 2);
    assert_eq!(Instruction::AddToStackPointer.length(), 2);
    assert_eq!(Instruction::LoadHLFromStackPointer.length(), 2);
    assert_eq!(Instruction::Shift8(ShiftOperation::Swap, Register8::A).length(), 2);
    assert_eq!(Instruction::TestBit(7, Register8::H).length(), 2);
    assert_eq!(Instruction::ResetBit(0, Register8::HLIndirect).length(), 2);
    assert_eq!(Instruction::SetBit(0, Register8::HLIndirect).length(), 2);
    assert_eq!(Instruction::LoadImmediate16(Register16::HL).length(), 3);
    assert_eq!(Instruction::StoreStackPointer.length(), 3);
    assert_eq!(Instruction::Jump.length(), 3);
    assert_eq!(Instruction::JumpIf(Condition::Carry).length(), 3);
    assert_eq!(Instruction::Call.length(), 3);
    assert_eq!(Instruction::CallIf(Condition::NotCarry).length(), 3);
    assert_eq!(Instruction::StoreAbsolute.length(), 3);
    assert_eq!(Instruction::LoadAbsolute.length(), 3);
}

#[test]
fn cycles_depend_on_the_operand_and_on_the_branch() {
    assert_eq!(Instruction::NoOperation.cycles(true), 1);
    assert_eq!(Instruction::NoOperation.cycles(false), 1);
    assert_eq!(Instruction::LoadImmediate16(Register16::BC).cycles(true), 3);
    assert_eq!(Instruction::StoreStackPointer.cycles(true), 5);
    assert_eq!(Instruction::Increment16(Register16::BC).cycles(true), 2);
    assert_eq!(Instruction::AddToHL(Register16::DE).cycles(true), 2);
    assert_eq!(Instruction::Increment8(Register8::B).cycles(true), 1);
    assert_eq!(Instruction::Increment8(Register8::HLIndirect).cycles(true), 3);
    assert_eq!(Instruction::Decrement8(Register8::HLIndirect).cycles(true), 3);
    assert_eq!(Instruction::LoadImmediate8(Register8::B).cycles(true), 2);
    assert_eq!(Instruction::LoadImmediate8(Register8::HLIndirect).cycles(true), 3);
    assert_eq!(Instruction::Load8(Register8::B, Register8::C).cycles(true), 1);
    assert_eq!(Instruction::Load8(Register8::B, Register8::HLIndirect).cycles(true), 2);
    assert_eq!(Instruction::Load8(Register8::HLIndirect, Register8::B).cycles(true), 2);
    assert_eq!(Instruction::Arithmetic8(ArithmeticOperation::Add, Register8::B).cycles(true), 1);
    assert_eq!(Instruction::Arithmetic8(ArithmeticOperation::Add, Register8::HLIndirect).cycles(true), 2);
    assert_eq!(Instruction::ArithmeticImmediate(ArithmeticOperation::Add).cycles(true), 2);
    assert_eq!(Instruction::JumpRelative.cycles(true), 3);
    assert_eq!(Instruction::JumpRelativeIf(Condition::Zero).cycles(true), 3);
    assert_eq!(Instruction::JumpRelativeIf(Condition::Zero).cycles(false), 2);
    assert_eq!(Instruction::Jump.cycles(true), 4);
    assert_eq!(Instruction::JumpIf(Condition::Zero).cycles(true), 4);
    assert_eq!(Instruction::JumpIf(Condition::Zero).cycles(false), 3);
    assert_eq!(Instruction::JumpToHL.cycles(true), 1);
    assert_eq!(Instruction::Call.cycles(true), 6);
    assert_eq!(Instruction::CallIf(Condition::Zero).cycles(true), 6);
    assert_eq!(Instruction::CallIf(Condition::Zero).cycles(false), 3);
    assert_eq!(Instruction::Return.cycles(true), 4);
    assert_eq!(Instruction::ReturnFromInterrupt.cycles(true), 4);
    assert_eq!(Instruction::ReturnIf(Condition::Zero).cycles(true), 5);
    assert_eq!(Instruction::ReturnIf(Condition::Zero).cycles(false), 2);
    assert_eq!(Instruction::Restart(0x08).cycles(true), 4);
    assert_eq!(Instruction::Pop(StackRegister16::BC).cycles(true), 3);
    assert_eq!(Instruction::Push(StackRegister16::BC).cycles(true), 4);
    assert_eq!(Instruction::StoreHighAtC.cycles(true), 2);
    assert_eq!(Instruction::StoreHigh.cycles(true), 3);
    assert_eq!(Instruction::StoreAbsolute.cycles(true), 4);
    assert_eq!(Instruction::LoadHighAtC.cycles(true), 2);
    assert_eq!(Instruction::LoadHigh.cycles(true), 3);
    assert_eq!(Instruction::LoadAbsolute.cycles(true), 4);
    assert_eq!(Instruction::AddToStackPointer.cycles(true), 4);
    assert_eq!(Instruction::LoadHLFromStackPointer.cycles(true), 3);
    assert_eq!(Instruction::LoadStackPointerFromHL.cycles(true), 2);
    assert_eq!(Instruction::Shift8(ShiftOperation::Swap, Register8::A).cycles(true), 2);
    assert_eq!(Instruction::Shift8(ShiftOperation::Swap, Register8::HLIndirect).cycles(true), 4);
    assert_eq!(Instruction::TestBit(0, Register8::A).cycles(true), 2);
    assert_eq!(Instruction::TestBit(0, Register8::HLIndirect).cycles(true), 3);
    assert_eq!(Instruction::ResetBit(0, Register8::HLIndirect).cycles(true), 4);
    assert_eq!(Instruction::SetBit(0, Register8::A).cycles(true), 2);
    assert_eq!(Instruction::SetBit(0, Register8::HLIndirect).cycles(true), 4);
}
