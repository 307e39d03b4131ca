//! The instruction set: what instructions there are, how each is encoded,
//! how many bytes it takes and how many machine cycles it costs.
//!
//! An instruction is one opcode byte, or the prefix byte followed by one
//! opcode byte, and up to two operand bytes after that. The opcode is laid
//! out in three fields: bits 7 and 6 pick a quarter of the table, bits 5 to
//! 3 a row in it and bits 2 to 0 a column.

use vstd::prelude::*;
use crate::cpu::operands::{
    ArithmeticOperation,
    Condition,
    MemoryRegister16,
    Register16,
    Register8,
    ShiftOperation,
    StackRegister16,
    PREFIX,
};

verus! {

/// One instruction of the processor, with the operands that its opcode
/// names. Operand bytes that follow the opcode are not part of it.
#[derive(Debug, Copy, Clone, PartialEq, Eq, Structural)]
pub enum Instruction {
    /// `NOP`: does nothing.
    NoOperation,
    /// `LD r16, n16`: loads the 16-bit operand into a pair.
    LoadImmediate16(Register16),
    /// `LD [r16], A`: stores the accumulator at the address in a pair.
    StoreAccumulator(MemoryRegister16),
    /// `LD A, [r16]`: loads the accumulator from the address in a pair.
    LoadAccumulator(MemoryRegister16),
    /// `LD [n16], SP`: stores the stack pointer at the operand address, low
    /// byte first.
    StoreStackPointer,
    /// `INC r16`: adds one to a pair; no flag changes.
    Increment16(Register16),
    /// `DEC r16`: takes one from a pair; no flag changes.
    Decrement16(Register16),
    /// `ADD HL, r16`: adds a pair to HL.
    AddToHL(Register16),
    /// `INC r8`: adds one to an 8-bit operand.
    Increment8(Register8),
    /// `DEC r8`: takes one from an 8-bit operand.
    Decrement8(Register8),
    /// `LD r8, n8`: loads the operand byte into an 8-bit operand.
    LoadImmediate8(Register8),
    /// `RLCA`: rotates the accumulator left.
    RotateAccumulatorLeft,
    /// `RRCA`: rotates the accumulator right.
    RotateAccumulatorRight,
    /// `RLA`: rotates the accumulator left through the carry flag.
    RotateAccumulatorLeftThroughCarry,
    /// `RRA`: rotates the accumulator right through the carry flag.
    RotateAccumulatorRightThroughCarry,
    /// `DAA`: corrects the accumulator to two decimal digits after an
    /// addition or subtraction of such numbers.
    DecimalAdjust,
    /// `CPL`: inverts every bit of the accumulator.
    Complement,
    /// `SCF`: sets the carry flag.
    SetCarry,
    /// `CCF`: inverts the carry flag.
    ComplementCarry,
    /// `JR e8`: jumps by the signed operand byte.
    JumpRelative,
    /// `JR cc, e8`: jumps by the signed operand byte if the condition holds.
    JumpRelativeIf(Condition),
    /// `STOP`: asks the machine to stop its clocks.
    Stop,
    /// `LD r8, r8`: copies the second operand into the first.
    Load8(Register8, Register8),
    /// `HALT`: asks the machine to wait for an interrupt.
    Halt,
    /// `ADD`, `ADC`, `SUB`, `SBC`, `AND`, `XOR`, `OR`, `CP` with an 8-bit
    /// operand.
    Arithmetic8(ArithmeticOperation, Register8),
    /// `ADD`, `ADC`, `SUB`, `SBC`, `AND`, `XOR`, `OR`, `CP` with the operand
    /// byte.
    ArithmeticImmediate(ArithmeticOperation),
    /// `RET cc`: returns if the condition holds.
    ReturnIf(Condition),
    /// `RET`: returns to the address on top of the stack.
    Return,
    /// `RETI`: returns and asks the machine to accept interrupts again.
    ReturnFromInterrupt,
    /// `JP cc, n16`: jumps to the operand address if the condition holds.
    JumpIf(Condition),
    /// `JP n16`: jumps to the operand address.
    Jump,
    /// `JP HL`: jumps to the address in HL.
    JumpToHL,
    /// `CALL cc, n16`: calls the operand address if the condition holds.
    CallIf(Condition),
    /// `CALL n16`: pushes the address of the next instruction and jumps to
    /// the operand address.
    Call,
    /// `RST t`: calls the fixed address `t`, one of 0x00, 0x08, up to 0x38.
    Restart(u8),
    /// `POP r16`: takes a pair from the stack.
    Pop(StackRegister16),
    /// `PUSH r16`: puts a pair on the stack.
    Push(StackRegister16),
    /// `LDH [C], A`: stores the accumulator at 0xFF00 plus register C.
    StoreHighAtC,
    /// `LDH [n8], A`: stores the accumulator at 0xFF00 plus the operand
    /// byte.
    StoreHigh,
    /// `LD [n16], A`: stores the accumulator at the operand address.
    StoreAbsolute,
    /// `LDH A, [C]`: loads the accumulator from 0xFF00 plus register C.
    LoadHighAtC,
    /// `LDH A, [n8]`: loads the accumulator from 0xFF00 plus the operand
    /// byte.
    LoadHigh,
    /// `LD A, [n16]`: loads the accumulator from the operand address.
    LoadAbsolute,
    /// `ADD SP, e8`: adds the signed operand byte to the stack pointer.
    AddToStackPointer,
    /// `LD HL, SP + e8`: loads HL with the stack pointer plus the signed
    /// operand byte.
    LoadHLFromStackPointer,
    /// `LD SP, HL`: copies HL into the stack pointer.
    LoadStackPointerFromHL,
    /// `DI`: asks the machine to hold interrupts back.
    DisableInterrupts,
    /// `EI`: asks the machine to accept interrupts.
    EnableInterrupts,
    /// `RLC`, `RRC`, `RL`, `RR`, `SLA`, `SRA`, `SWAP`, `SRL` on an 8-bit
    /// operand. Prefixed.
    Shift8(ShiftOperation, Register8),
    /// `BIT b, r8`: tests bit `b` of an 8-bit operand. Prefixed.
    TestBit(u8, Register8),
    /// `RES b, r8`: clears bit `b` of an 8-bit operand. Prefixed.
    ResetBit(u8, Register8),
    /// `SET b, r8`: sets bit `b` of an 8-bit operand. Prefixed.
    SetBit(u8, Register8),
}

/// Whether no instruction has `opcode` as its first byte. Eleven bytes are
/// unassigned.
pub open spec fn is_unassigned(opcode: u8) -> bool {
    opcode == 0xD3 || opcode == 0xDB || opcode == 0xDD || opcode == 0xE3 || opcode == 0xE4
        || opcode == 0xEB || opcode == 0xEC || opcode == 0xED || opcode == 0xF4 || opcode == 0xFC
        || opcode == 0xFD
}

impl Instruction {
    /// Whether the operands are ones that an opcode can name: a bit number
    /// is below 8, a restart address is a multiple of 8 up to 0x38, and a
    /// copy does not have the byte at HL on both sides.
    pub open spec fn well_formed(self) -> bool {
        match self {
            Instruction::Restart(target) => target % 8 == 0 && target <= 0x38,
            Instruction::Load8(to, from) => !(to == Register8::HLIndirect && from
                == Register8::HLIndirect),
            Instruction::TestBit(bit, _) => bit < 8,
            Instruction::ResetBit(bit, _) => bit < 8,
            Instruction::SetBit(bit, _) => bit < 8,
            _ => true,
        }
    }

    /// Whether the opcode of this instruction follows the prefix byte.
    pub open spec fn is_prefixed(self) -> bool {
        match self {
            Instruction::Shift8(_, _) => true,
            Instruction::TestBit(_, _) => true,
            Instruction::ResetBit(_, _) => true,
            Instruction::SetBit(_, _) => true,
            _ => false,
        }
    }

    /// The opcode byte of this instruction. For a prefixed instruction it is
    /// the byte after the prefix.
    pub open spec fn opcode(self) -> int {
        match self {
            Instruction::NoOperation => 0x00,
            Instruction::LoadImmediate16(pair) => 0x01 + 16 * pair.code(),
            Instruction::StoreAccumulator(pair) => 0x02 + 16 * pair.code(),
            Instruction::LoadAccumulator(pair) => 0x0A + 16 * pair.code(),
            Instruction::StoreStackPointer => 0x08,
            Instruction::Increment16(pair) => 0x03 + 16 * pair.code(),
            Instruction::Decrement16(pair) => 0x0B + 16 * pair.code(),
            Instruction::AddToHL(pair) => 0x09 + 16 * pair.code(),
            Instruction::Increment8(operand) => 0x04 + 8 * operand.code(),
            Instruction::Decrement8(operand) => 0x05 + 8 * operand.code(),
            Instruction::LoadImmediate8(operand) => 0x06 + 8 * operand.code(),
            Instruction::RotateAccumulatorLeft => 0x07,
            Instruction::RotateAccumulatorRight => 0x0F,
            Instruction::RotateAccumulatorLeftThroughCarry => 0x17,
            Instruction::RotateAccumulatorRightThroughCarry => 0x1F,
            Instruction::DecimalAdjust => 0x27,
            Instruction::Complement => 0x2F,
            Instruction::SetCarry => 0x37,
            Instruction::ComplementCarry => 0x3F,
            Instruction::JumpRelative => 0x18,
            Instruction::JumpRelativeIf(condition) => 0x20 + 8 * condition.code(),
            Instruction::Stop => 0x10,
            Instruction::Load8(to, from) => 0x40 + 8 * to.code() + from.code(),
            Instruction::Halt => 0x76,
            Instruction::Arithmetic8(operation, operand) => 0x80 + 8 * operation.code()
                + operand.code(),
            Instruction::ArithmeticImmediate(operation) => 0xC6 + 8 * operation.code(),
            Instruction::ReturnIf(condition) => 0xC0 + 8 * condition.code(),
            Instruction::Return => 0xC9,
            Instruction::ReturnFromInterrupt => 0xD9,
            Instruction::JumpIf(condition) => 0xC2 + 8 * condition.code(),
            Instruction::Jump => 0xC3,
            Instruction::JumpToHL => 0xE9,
            Instruction::CallIf(condition) => 0xC4 + 8 * condition.code(),
            Instruction::Call => 0xCD,
            Instruction::Restart(target) => 0xC7 + target,
            Instruction::Pop(pair) => 0xC1 + 16 * pair.code(),
            Instruction::Push(pair) => 0xC5 + 16 * pair.code(),
            Instruction::StoreHighAtC => 0xE2,
            Instruction::StoreHigh => 0xE0,
            Instruction::StoreAbsolute => 0xEA,
            Instruction::LoadHighAtC => 0xF2,
            Instruction::LoadHigh => 0xF0,
            Instruction::LoadAbsolute => 0xFA,
            Instruction::AddToStackPointer => 0xE8,
            Instruction::LoadHLFromStackPointer => 0xF8,
            Instruction::LoadStackPointerFromHL => 0xF9,
            Instruction::DisableInterrupts => 0xF3,
            Instruction::EnableInterrupts => 0xFB,
            Instruction::Shift8(operation, operand) => 8 * operation.code() + operand.code(),
            Instruction::TestBit(bit, operand) => 0x40 + 8 * bit + operand.code(),
            Instruction::ResetBit(bit, operand) => 0x80 + 8 * bit + operand.code(),
            Instruction::SetBit(bit, operand) => 0xC0 + 8 * bit + operand.code(),
        }
    }

    /// Whether decoding the opcode of this instruction, in the table that
    /// the instruction belongs to, gives the instruction back.
    pub open spec fn decodes_back(self) -> bool {
        if self.is_prefixed() {
            Self::spec_decode_prefixed(self.opcode() as u8) == self
        } else {
            Self::spec_decode(self.opcode() as u8) == Some(self)
        }
    }

    /// The instruction whose opcode is the unprefixed byte `opcode`, or
    /// `None` if that byte is unassigned or is the prefix.
    pub open spec fn spec_decode(opcode: u8) -> Option<Instruction> {
        let row = (opcode / 8) % 8;
        let column = opcode % 8;
        if opcode < 0x40 {
            Self::decode_first_quarter(row, column)
        } else if opcode < 0x80 {
            if row == 6 && column == 6 {
                Some(Instruction::Halt)
            } else {
                Some(
                    Instruction::Load8(
                        Register8::spec_from_code(row),
                        Register8::spec_from_code(column),
                    ),
                )
            }
        } else if opcode < 0xC0 {
            Some(
                Instruction::Arithmetic8(
                    ArithmeticOperation::spec_from_code(row),
                    Register8::spec_from_code(column),
                ),
            )
        } else {
            Self::decode_last_quarter(row, column)
        }
    }

    /// The instruction in a row and a column of the first quarter of the
    /// table: the opcodes below 0x40.
    pub open spec fn decode_first_quarter(row: u8, column: u8) -> Option<Instruction> {
        let pair = row / 2;
        if column == 0 {
            if row == 0 {
                Some(Instruction::NoOperation)
            } else if row == 1 {
                Some(Instruction::StoreStackPointer)
            } else if row == 2 {
                Some(Instruction::Stop)
            } else if row == 3 {
                Some(Instruction::JumpRelative)
            } else {
                Some(Instruction::JumpRelativeIf(Condition::spec_from_code((row - 4) as u8)))
            }
        } else if column == 1 {
            if row % 2 == 0 {
                Some(Instruction::LoadImmediate16(Register16::spec_from_code(pair)))
            } else {
                Some(Instruction::AddToHL(Register16::spec_from_code(pair)))
            }
        } else if column == 2 {
            if row % 2 == 0 {
                Some(Instruction::StoreAccumulator(MemoryRegister16::spec_from_code(pair)))
            } else {
                Some(Instruction::LoadAccumulator(MemoryRegister16::spec_from_code(pair)))
            }
        } else if column == 3 {
            if row % 2 == 0 {
                Some(Instruction::Increment16(Register16::spec_from_code(pair)))
            } else {
                Some(Instruction::Decrement16(Register16::spec_from_code(pair)))
            }
        } else if column == 4 {
            Some(Instruction::Increment8(Register8::spec_from_code(row)))
        } else if column == 5 {
            Some(Instruction::Decrement8(Register8::spec_from_code(row)))
        } else if column == 6 {
            Some(Instruction::LoadImmediate8(Register8::spec_from_code(row)))
        } else {
            if row == 0 {
                Some(Instruction::RotateAccumulatorLeft)
            } else if row == 1 {
                Some(Instruction::RotateAccumulatorRight)
            } else if row == 2 {
                Some(Instruction::RotateAccumulatorLeftThroughCarry)
            } else if row == 3 {
                Some(Instruction::RotateAccumulatorRightThroughCarry)
            } else if row == 4 {
                Some(Instruction::DecimalAdjust)
            } else if row == 5 {
                Some(Instruction::Complement)
            } else if row == 6 {
                Some(Instruction::SetCarry)
            } else {
                Some(Instruction::ComplementCarry)
            }
        }
    }

    /// The instruction in a row and a column of the last quarter of the
    /// table, if there is one: the opcodes from 0xC0 up.
    pub open spec fn decode_last_quarter(row: u8, column: u8) -> Option<Instruction> {
        let pair = row / 2;
        if column == 0 {
            if row < 4 {
                Some(Instruction::ReturnIf(Condition::spec_from_code(row)))
            } else if row == 4 {
                Some(Instruction::StoreHigh)
            } else if row == 5 {
                Some(Instruction::AddToStackPointer)
            } else if row == 6 {
                Some(Instruction::LoadHigh)
            } else {
                Some(Instruction::LoadHLFromStackPointer)
            }
        } else if column == 1 {
            if row % 2 == 0 {
                Some(Instruction::Pop(StackRegister16::spec_from_code(pair)))
            } else if row == 1 {
                Some(Instruction::Return)
            } else if row == 3 {
                Some(Instruction::ReturnFromInterrupt)
            } else if row == 5 {
                Some(Instruction::JumpToHL)
            } else {
                Some(Instruction::LoadStackPointerFromHL)
            }
        } else if column == 2 {
            if row < 4 {
                Some(Instruction::JumpIf(Condition::spec_from_code(row)))
            } else if row == 4 {
                Some(Instruction::StoreHighAtC)
            } else if row == 5 {
                Some(Instruction::StoreAbsolute)
            } else if row == 6 {
                Some(Instruction::LoadHighAtC)
            } else {
                Some(Instruction::LoadAbsolute)
            }
        } else if column == 3 {
            if row == 0 {
                Some(Instruction::Jump)
            } else if row == 6 {
                Some(Instruction::DisableInterrupts)
            } else if row == 7 {
                Some(Instruction::EnableInterrupts)
            } else {
                None
            }
        } else if column == 4 {
            if row < 4 {
                Some(Instruction::CallIf(Condition::spec_from_code(row)))
            } else {
                None
            }
        } else if column == 5 {
            if row % 2 == 0 {
                Some(Instruction::Push(StackRegister16::spec_from_code(pair)))
            } else if row == 1 {
                Some(Instruction::Call)
            } else {
                None
            }
        } else if column == 6 {
            Some(Instruction::ArithmeticImmediate(ArithmeticOperation::spec_from_code(row)))
        } else {
            Some(Instruction::Restart((row * 8) as u8))
        }
    }

    /// The instruction whose opcode is the byte `opcode` after the prefix.
    /// Every such byte is assigned.
    pub open spec fn spec_decode_prefixed(opcode: u8) -> Instruction {
        let row = (opcode / 8) % 8;
        let operand = Register8::spec_from_code(opcode % 8);
        if opcode < 0x40 {
            Instruction::Shift8(ShiftOperation::spec_from_code(row), operand)
        } else if opcode < 0x80 {
            Instruction::TestBit(row, operand)
        } else if opcode < 0xC0 {
            Instruction::ResetBit(row, operand)
        } else {
            Instruction::SetBit(row, operand)
        }
    }

    /// The number of bytes that the instruction takes on the bus: the
    /// prefix if it has one, the opcode, and the operand bytes.
    pub open spec fn spec_length(self) -> u16 {
        match self {
            Instruction::LoadImmediate16(_) => 3,
            Instruction::StoreStackPointer => 3,
            Instruction::JumpIf(_) => 3,
            Instruction::Jump => 3,
            Instruction::CallIf(_) => 3,
            Instruction::Call => 3,
            Instruction::StoreAbsolute => 3,
            Instruction::LoadAbsolute => 3,
            Instruction::LoadImmediate8(_) => 2,
            Instruction::JumpRelative => 2,
            Instruction::JumpRelativeIf(_) => 2,
            Instruction::Stop => 2,
            Instruction::ArithmeticImmediate(_) => 2,
            Instruction::StoreHigh => 2,
            Instruction::LoadHigh => 2,
            Instruction::AddToStackPointer => 2,
            Instruction::LoadHLFromStackPointer => 2,
            Instruction::Shift8(_, _) => 2,
            Instruction::TestBit(_, _) => 2,
            Instruction::ResetBit(_, _) => 2,
            Instruction::SetBit(_, _) => 2,
            _ => 1,
        }
    }

    /// The number of machine cycles that the instruction costs. `taken`
    /// says whether a conditional jump, call or return went ahead; it has
    /// no part in the cost of any other instruction.
    pub open spec fn spec_cycles(self, taken: bool) -> u8 {
        match self {
            Instruction::NoOperation => 1,
            Instruction::LoadImmediate16(_) => 3,
            Instruction::StoreAccumulator(_) => 2,
            Instruction::LoadAccumulator(_) => 2,
            Instruction::StoreStackPointer => 5,
            Instruction::Increment16(_) => 2,
            Instruction::Decrement16(_) => 2,
            Instruction::AddToHL(_) => 2,
            Instruction::Increment8(operand) => if operand == Register8::HLIndirect {
                3
            } else {
                1
            },
            Instruction::Decrement8(operand) => if operand == Register8::HLIndirect {
                3
            } else {
                1
            },
            Instruction::LoadImmediate8(operand) => if operand == Register8::HLIndirect {
                3
            } else {
                2
            },
            Instruction::RotateAccumulatorLeft => 1,
            Instruction::RotateAccumulatorRight => 1,
            Instruction::RotateAccumulatorLeftThroughCarry => 1,
            Instruction::RotateAccumulatorRightThroughCarry => 1,
            Instruction::DecimalAdjust => 1,
            Instruction::Complement => 1,
            Instruction::SetCarry => 1,
            Instruction::ComplementCarry => 1,
            Instruction::JumpRelative => 3,
            Instruction::JumpRelativeIf(_) => if taken {
                3
            } else {
                2
            },
            Instruction::Stop => 1,
            Instruction::Load8(to, from) => if to == Register8::HLIndirect || from
                == Register8::HLIndirect {
                2
            } else {
                1
            },
            Instruction::Halt => 1,
            Instruction::Arithmetic8(_, operand) => if operand == Register8::HLIndirect {
                2
            } else {
                1
            },
            Instruction::ArithmeticImmediate(_) => 2,
            Instruction::ReturnIf(_) => if taken {
                5
            } else {
                2
            },
            Instruction::Return => 4,
            Instruction::ReturnFromInterrupt => 4,
            Instruction::JumpIf(_) => if taken {
                4
            } else {
                3
            },
            Instruction::Jump => 4,
            Instruction::JumpToHL => 1,
            Instruction::CallIf(_) => if taken {
                6
            } else {
                3
            },
            Instruction::Call => 6,
            Instruction::Restart(_) => 4,
            Instruction::Pop(_) => 3,
            Instruction::Push(_) => 4,
            Instruction::StoreHighAtC => 2,
            Instruction::StoreHigh => 3,
            Instruction::StoreAbsolute => 4,
            Instruction::LoadHighAtC => 2,
            Instruction::LoadHigh => 3,
            Instruction::LoadAbsolute => 4,
            Instruction::AddToStackPointer => 4,
            Instruction::LoadHLFromStackPointer => 3,
            Instruction::LoadStackPointerFromHL => 2,
            Instruction::DisableInterrupts => 1,
            Instruction::EnableInterrupts => 1,
            Instruction::Shift8(_, operand) => if operand == Register8::HLIndirect {
                4
            } else {
                2
            },
            Instruction::TestBit(_, operand) => if operand == Register8::HLIndirect {
                3
            } else {
                2
            },
            Instruction::ResetBit(_, operand) => if operand == Register8::HLIndirect {
                4
            } else {
                2
            },
            Instruction::SetBit(_, operand) => if operand == Register8::HLIndirect {
                4
            } else {
                2
            },
        }
    }

    fn decode_low(row: u8, column: u8) -> (instruction: Option<Instruction>)
        requires
            row < 8,
            column < 8,
        ensures
            instruction == Self::decode_first_quarter(row, column),
    {
        let pair: u8 = row / 2;
        if column == 0 {
            if row == 0 {
                Some(Instruction::NoOperation)
            } else if row == 1 {
                Some(Instruction::StoreStackPointer)
            } else if row == 2 {
                Some(Instruction::Stop)
            } else if row == 3 {
                Some(Instruction::JumpRelative)
            } else {
                Some(Instruction::JumpRelativeIf(Condition::from_code(row - 4)))
            }
        } else if column == 1 {
            if row % 2 == 0 {
                Some(Instruction::LoadImmediate16(Register16::from_code(pair)))
            } else {
                Some(Instruction::AddToHL(Register16::from_code(pair)))
            }
        } else if column == 2 {
            if row % 2 == 0 {
                Some(Instruction::StoreAccumulator(MemoryRegister16::from_code(pair)))
            } else {
                Some(Instruction::LoadAccumulator(MemoryRegister16::from_code(pair)))
            }
        } else if column == 3 {
            if row % 2 == 0 {
                Some(Instruction::Increment16(Register16::from_code(pair)))
            } else {
                Some(Instruction::Decrement16(Register16::from_code(pair)))
            }
        } else if column == 4 {
            Some(Instruction::Increment8(Register8::from_code(row)))
        } else if column == 5 {
            Some(Instruction::Decrement8(Register8::from_code(row)))
        } else if column == 6 {
            Some(Instruction::LoadImmediate8(Register8::from_code(row)))
        } else {
            if row == 0 {
                Some(Instruction::RotateAccumulatorLeft)
            } else if row == 1 {
                Some(Instruction::RotateAccumulatorRight)
            } else if row == 2 {
                Some(Instruction::RotateAccumulatorLeftThroughCarry)
            } else if row == 3 {
                Some(Instruction::RotateAccumulatorRightThroughCarry)
            } else if row == 4 {
                Some(Instruction::DecimalAdjust)
            } else if row == 5 {
                Some(Instruction::Complement)
            } else if row == 6 {
                Some(Instruction::SetCarry)
            } else {
                Some(Instruction::ComplementCarry)
            }
        }
    }

    fn decode_high(row: u8, column: u8) -> (instruction: Option<Instruction>)
        requires
            row < 8,
            column < 8,
        ensures
            instruction == Self::decode_last_quarter(row, column),
    {
        let pair: u8 = row / 2;
        if column == 0 {
            if row < 4 {
                Some(Instruction::ReturnIf(Condition::from_code(row)))
            } else if row == 4 {
                Some(Instruction::StoreHigh)
            } else if row == 5 {
                Some(Instruction::AddToStackPointer)
            } else if row == 6 {
                Some(Instruction::LoadHigh)
            } else {
                Some(Instruction::LoadHLFromStackPointer)
            }
        } else if column == 1 {
            if row % 2 == 0 {
                Some(Instruction::Pop(StackRegister16::from_code(pair)))
            } else if row == 1 {
                Some(Instruction::Return)
            } else if row == 3 {
                Some(Instruction::ReturnFromInterrupt)
            } else if row == 5 {
                Some(Instruction::JumpToHL)
            } else {
                Some(Instruction::LoadStackPointerFromHL)
            }
        } else if column == 2 {
            if row < 4 {
                Some(Instruction::JumpIf(Condition::from_code(row)))
            } else if row == 4 {
                Some(Instruction::StoreHighAtC)
            } else if row == 5 {
                Some(Instruction::StoreAbsolute)
            } else if row == 6 {
                Some(Instruction::LoadHighAtC)
            } else {
                Some(Instruction::LoadAbsolute)
            }
        } else if column == 3 {
            if row == 0 {
                Some(Instruction::Jump)
            } else if row == 6 {
                Some(Instruction::DisableInterrupts)
            } else if row == 7 {
                Some(Instruction::EnableInterrupts)
            } else {
                None
            }
        } else if column == 4 {
            if row < 4 {
                Some(Instruction::CallIf(Condition::from_code(row)))
            } else {
                None
            }
        } else if column == 5 {
            if row % 2 == 0 {
                Some(Instruction::Push(StackRegister16::from_code(pair)))
            } else if row == 1 {
                Some(Instruction::Call)
            } else {
                None
            }
        } else if column == 6 {
            Some(Instruction::ArithmeticImmediate(ArithmeticOperation::from_code(row)))
        } else {
            Some(Instruction::Restart((row * 8) as u8))
        }
    }

    /// Finds the instruction that the unprefixed byte `opcode` stands for.
    /// The eleven unassigned bytes and the prefix stand for none.
    #[verifier::when_used_as_spec(spec_decode)]
    pub fn decode(opcode: u8) -> (instruction: Option<Instruction>)
        ensures
            instruction == Self::spec_decode(opcode),
            instruction is None <==> opcode == PREFIX || is_unassigned(opcode),
    {
        proof {
            lemma_decode_gives_opcode(opcode);
        }
        let row: u8 = (opcode / 8) % 8;
        let column: u8 = opcode % 8;
        if opcode < 0x40 {
            Self::decode_low(row, column)
        } else if opcode < 0x80 {
            if row == 6 && column == 6 {
                Some(Instruction::Halt)
            } else {
                Some(
                    Instruction::Load8(
                        Register8::from_code(row),
                        Register8::from_code(column),
                    ),
                )
            }
        } else if opcode < 0xC0 {
            Some(
                Instruction::Arithmetic8(
                    ArithmeticOperation::from_code(row),
                    Register8::from_code(column),
                ),
            )
        } else {
            Self::decode_high(row, column)
        }
    }

    /// Finds the instruction that the byte `opcode` stands for when it
    /// follows the prefix.
    #[verifier::when_used_as_spec(spec_decode_prefixed)]
    pub fn decode_prefixed(opcode: u8) -> (instruction: Instruction)
        ensures
            instruction == Self::spec_decode_prefixed(opcode),
    {
        let row: u8 = (opcode / 8) % 8;
        let operand = Register8::from_code(opcode % 8);
        if opcode < 0x40 {
            Instruction::Shift8(ShiftOperation::from_code(row), operand)
        } else if opcode < 0x80 {
            Instruction::TestBit(row, operand)
        } else if opcode < 0xC0 {
            Instruction::ResetBit(row, operand)
        } else {
            Instruction::SetBit(row, operand)
        }
    }

    /// The number of bytes that the instruction takes on the bus.
    #[verifier::when_used_as_spec(spec_length)]
    pub fn length(self) -> (length: u16)
        ensures
            length == self.spec_length(),
            1 <= length <= 3,
    {
        match self {
            Instruction::LoadImmediate16(_) => 3,
            Instruction::StoreStackPointer => 3,
            Instruction::JumpIf(_) => 3,
            Instruction::Jump => 3,
            Instruction::CallIf(_) => 3,
            Instruction::Call => 3,
            Instruction::StoreAbsolute => 3,
            Instruction::LoadAbsolute => 3,
            Instruction::LoadImmediate8(_) => 2,
            Instruction::JumpRelative => 2,
            Instruction::JumpRelativeIf(_) => 2,
            Instruction::Stop => 2,
            Instruction::ArithmeticImmediate(_) => 2,
            Instruction::StoreHigh => 2,
            Instruction::LoadHigh => 2,
            Instruction::AddToStackPointer => 2,
            Instruction::LoadHLFromStackPointer => 2,
            Instruction::Shift8(_, _) => 2,
            Instruction::TestBit(_, _) => 2,
            Instruction::ResetBit(_, _) => 2,
            Instruction::SetBit(_, _) => 2,
            _ => 1,
        }
    }

    /// The number of machine cycles that the instruction costs; `taken`
    /// says whether a conditional jump, call or return went ahead.
    #[verifier::when_used_as_spec(spec_cycles)]
    pub fn cycles(self, taken: bool) -> (cycles: u8)
        ensures
            cycles == self.spec_cycles(taken),
            1 <= cycles <= 6,
    {
        match self {
            Instruction::NoOperation => 1,
            Instruction::LoadImmediate16(_) => 3,
            Instruction::StoreAccumulator(_) => 2,
            Instruction::LoadAccumulator(_) => 2,
            Instruction::StoreStackPointer => 5,
            Instruction::Increment16(_) => 2,
            Instruction::Decrement16(_) => 2,
            Instruction::AddToHL(_) => 2,
            Instruction::Increment8(operand) => if operand == Register8::HLIndirect {
                3
            } else {
                1
            },
            Instruction::Decrement8(operand) => if operand == Register8::HLIndirect {
                3
            } else {
                1
            },
            Instruction::LoadImmediate8(operand) => if operand == Register8::HLIndirect {
                3
            } else {
                2
            },
            Instruction::RotateAccumulatorLeft => 1,
            Instruction::RotateAccumulatorRight => 1,
            Instruction::RotateAccumulatorLeftThroughCarry => 1,
            Instruction::RotateAccumulatorRightThroughCarry => 1,
            Instruction::DecimalAdjust => 1,
            Instruction::Complement => 1,
            Instruction::SetCarry => 1,
            Instruction::ComplementCarry => 1,
            Instruction::JumpRelative => 3,
            Instruction::JumpRelativeIf(_) => if taken {
                3
            } else {
                2
            },
            Instruction::Stop => 1,
            Instruction::Load8(to, from) => if to == Register8::HLIndirect || from
                == Register8::HLIndirect {
                2
            } else {
                1
            },
            Instruction::Halt => 1,
            Instruction::Arithmetic8(_, operand) => if operand == Register8::HLIndirect {
                2
            } else {
                1
            },
            Instruction::ArithmeticImmediate(_) => 2,
            Instruction::ReturnIf(_) => if taken {
                5
            } else {
                2
            },
            Instruction::Return => 4,
            Instruction::ReturnFromInterrupt => 4,
            Instruction::JumpIf(_) => if taken {
                4
            } else {
                3
            },
            Instruction::Jump => 4,
            Instruction::JumpToHL => 1,
            Instruction::CallIf(_) => if taken {
                6
            } else {
                3
            },
            Instruction::Call => 6,
            Instruction::Restart(_) => 4,
            Instruction::Pop(_) => 3,
            Instruction::Push(_) => 4,
            Instruction::StoreHighAtC => 2,
            Instruction::StoreHigh => 3,
            Instruction::StoreAbsolute => 4,
            Instruction::LoadHighAtC => 2,
            Instruction::LoadHigh => 3,
            Instruction::LoadAbsolute => 4,
            Instruction::AddToStackPointer => 4,
            Instruction::LoadHLFromStackPointer => 3,
            Instruction::LoadStackPointerFromHL => 2,
            Instruction::DisableInterrupts => 1,
            Instruction::EnableInterrupts => 1,
            Instruction::Shift8(_, operand) => if operand == Register8::HLIndirect {
                4
            } else {
                2
            },
            Instruction::TestBit(_, operand) => if operand == Register8::HLIndirect {
                3
            } else {
                2
            },
            Instruction::ResetBit(_, operand) => if operand == Register8::HLIndirect {
                4
            } else {
                2
            },
            Instruction::SetBit(_, operand) => if operand == Register8::HLIndirect {
                4
            } else {
                2
            },
        }
    }
}

/// What the decoder finds for an unprefixed opcode is the one well-formed
/// unprefixed instruction with that opcode.
pub proof fn lemma_decode_gives_opcode(opcode: u8)
    ensures
        match Instruction::spec_decode(opcode) {
            Some(instruction) => instruction.well_formed() && !instruction.is_prefixed()
                && instruction.opcode() == opcode,
            None => opcode == PREFIX || is_unassigned(opcode),
        },
{
    let row = (opcode / 8) % 8;
    let column = opcode % 8;
    lemma_opcode_splits(opcode);
    Register8::B.lemma_code(row);
    Register8::B.lemma_code(column);
    ArithmeticOperation::Add.lemma_code(row);
    if opcode < 0x40 {
        lemma_first_quarter_gives_opcode(row, column);
    } else if opcode < 0x80 {
        assert(opcode == 0x40 + 8 * row + column);
    } else if opcode < 0xC0 {
        assert(opcode == 0x80 + 8 * row + column);
    } else {
        lemma_last_quarter_gives_opcode(row, column);
    }
}

proof fn lemma_opcode_splits(opcode: u8)
    ensures
        opcode == (opcode / 64) * 64 + ((opcode / 8) % 8) * 8 + opcode % 8,
{
}

proof fn lemma_first_quarter_gives_opcode(row: u8, column: u8)
    requires
        row < 8,
        column < 8,
    ensures
        match Instruction::decode_first_quarter(row, column) {
            Some(instruction) => instruction.well_formed() && !instruction.is_prefixed()
                && instruction.opcode() == 8 * row + column,
            None => false,
        },
{
    let pair = (row / 2) as u8;
    assert(row == 2 * pair + row % 2);
    Register16::BC.lemma_code(pair);
    MemoryRegister16::BC.lemma_code(pair);
    Register8::B.lemma_code(row);
    if row >= 4 {
        Condition::Zero.lemma_code((row - 4) as u8);
    }
}

proof fn lemma_last_quarter_gives_opcode(row: u8, column: u8)
    requires
        row < 8,
        column < 8,
    ensures
        match Instruction::decode_last_quarter(row, column) {
            Some(instruction) => instruction.well_formed() && !instruction.is_prefixed()
                && instruction.opcode() == 0xC0 + 8 * row + column,
            None => 0xC0 + 8 * row + column == PREFIX || is_unassigned(
                (0xC0 + 8 * row + column) as u8,
            ),
        },
{
    let pair = (row / 2) as u8;
    assert(row == 2 * pair + row % 2);
    StackRegister16::BC.lemma_code(pair);
    ArithmeticOperation::Add.lemma_code(row);
    if row < 4 {
        Condition::Zero.lemma_code(row);
    }
}

/// What the decoder finds for a prefixed opcode is the one well-formed
/// prefixed instruction with that opcode.
pub proof fn lemma_decode_prefixed_gives_opcode(opcode: u8)
    ensures
        Instruction::spec_decode_prefixed(opcode).well_formed(),
        Instruction::spec_decode_prefixed(opcode).is_prefixed(),
        Instruction::spec_decode_prefixed(opcode).opcode() == opcode,
{
    let row = (opcode / 8) % 8;
    let column = opcode % 8;
    lemma_opcode_splits(opcode);
    Register8::B.lemma_code(column);
    ShiftOperation::Swap.lemma_code(row);
    if opcode < 0x40 {
        assert(opcode == 8 * row + column);
    } else if opcode < 0x80 {
        assert(opcode == 0x40 + 8 * row + column);
    } else if opcode < 0xC0 {
        assert(opcode == 0x80 + 8 * row + column);
    } else {
        assert(opcode == 0xC0 + 8 * row + column);
    }
}

proof fn lemma_opcode_fields(quarter: int, row: int, column: int)
    requires
        quarter == 0x00 || quarter == 0x40 || quarter == 0x80 || quarter == 0xC0,
        0 <= row < 8,
        0 <= column < 8,
    ensures
        ((quarter + 8 * row + column) / 8) % 8 == row,
        (quarter + 8 * row + column) % 8 == column,
        quarter <= quarter + 8 * row + column < quarter + 0x40,
{
}

proof fn lemma_plain_low_decodes_back()
    ensures
        Instruction::NoOperation.decodes_back(),
        Instruction::StoreStackPointer.decodes_back(),
        Instruction::RotateAccumulatorLeft.decodes_back(),
        Instruction::RotateAccumulatorRight.decodes_back(),
        Instruction::RotateAccumulatorLeftThroughCarry.decodes_back(),
        Instruction::RotateAccumulatorRightThroughCarry.decodes_back(),
        Instruction::DecimalAdjust.decodes_back(),
        Instruction::Complement.decodes_back(),
        Instruction::SetCarry.decodes_back(),
        Instruction::ComplementCarry.decodes_back(),
        Instruction::JumpRelative.decodes_back(),
        Instruction::Stop.decodes_back(),
        Instruction::Halt.decodes_back(),
{
}

proof fn lemma_plain_high_decodes_back()
    ensures
        Instruction::Return.decodes_back(),
        Instruction::ReturnFromInterrupt.decodes_back(),
        Instruction::Jump.decodes_back(),
        Instruction::JumpToHL.decodes_back(),
        Instruction::Call.decodes_back(),
        Instruction::StoreHighAtC.decodes_back(),
        Instruction::StoreHigh.decodes_back(),
        Instruction::StoreAbsolute.decodes_back(),
        Instruction::LoadHighAtC.decodes_back(),
        Instruction::LoadHigh.decodes_back(),
        Instruction::LoadAbsolute.decodes_back(),
        Instruction::AddToStackPointer.decodes_back(),
        Instruction::LoadHLFromStackPointer.decodes_back(),
        Instruction::LoadStackPointerFromHL.decodes_back(),
        Instruction::DisableInterrupts.decodes_back(),
        Instruction::EnableInterrupts.decodes_back(),
{
}

proof fn lemma_pair_decodes_back(pair: Register16)
    ensures
        Instruction::LoadImmediate16(pair).decodes_back(),
        Instruction::Increment16(pair).decodes_back(),
        Instruction::Decrement16(pair).decodes_back(),
        Instruction::AddToHL(pair).decodes_back(),
{
    lemma_opcode_fields(0x00, 2 * pair.code(), 1);
    lemma_opcode_fields(0x00, 2 * pair.code(), 3);
    lemma_opcode_fields(0x00, 2 * pair.code() + 1, 3);
    lemma_opcode_fields(0x00, 2 * pair.code() + 1, 1);
}

proof fn lemma_transfer_decodes_back(pair: MemoryRegister16)
    ensures
        Instruction::StoreAccumulator(pair).decodes_back(),
        Instruction::LoadAccumulator(pair).decodes_back(),
{
    lemma_opcode_fields(0x00, 2 * pair.code(), 2);
    lemma_opcode_fields(0x00, 2 * pair.code() + 1, 2);
}

proof fn lemma_single_decodes_back(operand: Register8)
    ensures
        Instruction::Increment8(operand).decodes_back(),
        Instruction::Decrement8(operand).decodes_back(),
        Instruction::LoadImmediate8(operand).decodes_back(),
{
    lemma_opcode_fields(0x00, operand.code() as int, 4);
    lemma_opcode_fields(0x00, operand.code() as int, 5);
    lemma_opcode_fields(0x00, operand.code() as int, 6);
}

proof fn lemma_conditional_decodes_back(condition: Condition)
    ensures
        Instruction::JumpRelativeIf(condition).decodes_back(),
        Instruction::ReturnIf(condition).decodes_back(),
        Instruction::JumpIf(condition).decodes_back(),
        Instruction::CallIf(condition).decodes_back(),
{
    lemma_opcode_fields(0x00, 4 + condition.code(), 0);
    lemma_opcode_fields(0xC0, condition.code() as int, 0);
    lemma_opcode_fields(0xC0, condition.code() as int, 2);
    lemma_opcode_fields(0xC0, condition.code() as int, 4);
}

proof fn lemma_copy_decodes_back(to: Register8, from: Register8)
    requires
        !(to == Register8::HLIndirect && from == Register8::HLIndirect),
    ensures
        Instruction::Load8(to, from).decodes_back(),
{
    lemma_opcode_fields(0x40, to.code() as int, from.code() as int);
}

proof fn lemma_arithmetic_decodes_back(operation: ArithmeticOperation, operand: Register8)
    ensures
        Instruction::Arithmetic8(operation, operand).decodes_back(),
        Instruction::ArithmeticImmediate(operation).decodes_back(),
{
    lemma_opcode_fields(0x80, operation.code() as int, operand.code() as int);
    lemma_opcode_fields(0xC0, operation.code() as int, 6);
}

proof fn lemma_restart_decodes_back(target: u8)
    requires
        target % 8 == 0,
        target <= 0x38,
    ensures
        Instruction::Restart(target).decodes_back(),
{
    lemma_opcode_fields(0xC0, target as int / 8, 7);
}

proof fn lemma_stack_decodes_back(pair: StackRegister16)
    ensures
        Instruction::Pop(pair).decodes_back(),
        Instruction::Push(pair).decodes_back(),
{
    lemma_opcode_fields(0xC0, 2 * pair.code(), 1);
    lemma_opcode_fields(0xC0, 2 * pair.code(), 5);
}

proof fn lemma_prefixed_decodes_back(operation: ShiftOperation, bit: u8, operand: Register8)
    requires
        bit < 8,
    ensures
        Instruction::Shift8(operation, operand).decodes_back(),
        Instruction::TestBit(bit, operand).decodes_back(),
        Instruction::ResetBit(bit, operand).decodes_back(),
        Instruction::SetBit(bit, operand).decodes_back(),
{
    lemma_opcode_fields(0x00, operation.code() as int, operand.code() as int);
    lemma_opcode_fields(0x40, bit as int, operand.code() as int);
    lemma_opcode_fields(0x80, bit as int, operand.code() as int);
    lemma_opcode_fields(0xC0, bit as int, operand.code() as int);
}

/// Every well-formed instruction is found again from its opcode: the
/// encoding loses nothing, and no two instructions share an opcode.
pub proof fn lemma_opcode_decodes(instruction: Instruction)
    requires
        instruction.well_formed(),
    ensures
        instruction.decodes_back(),
{
    match instruction {
        Instruction::NoOperation => lemma_plain_low_decodes_back(),
        Instruction::LoadImmediate16(pair) => lemma_pair_decodes_back(pair),
        Instruction::StoreAccumulator(pair) => lemma_transfer_decodes_back(pair),
        Instruction::LoadAccumulator(pair) => lemma_transfer_decodes_back(pair),
        Instruction::StoreStackPointer => lemma_plain_low_decodes_back(),
        Instruction::Increment16(pair) => lemma_pair_decodes_back(pair),
        Instruction::Decrement16(pair) => lemma_pair_decodes_back(pair),
        Instruction::AddToHL(pair) => lemma_pair_decodes_back(pair),
        Instruction::Increment8(operand) => lemma_single_decodes_back(operand),
        Instruction::Decrement8(operand) => lemma_single_decodes_back(operand),
        Instruction::LoadImmediate8(operand) => lemma_single_decodes_back(operand),
        Instruction::RotateAccumulatorLeft => lemma_plain_low_decodes_back(),
        Instruction::RotateAccumulatorRight => lemma_plain_low_decodes_back(),
        Instruction::RotateAccumulatorLeftThroughCarry => lemma_plain_low_decodes_back(),
        Instruction::RotateAccumulatorRightThroughCarry => lemma_plain_low_decodes_back(),
        Instruction::DecimalAdjust => lemma_plain_low_decodes_back(),
        Instruction::Complement => lemma_plain_low_decodes_back(),
        Instruction::SetCarry => lemma_plain_low_decodes_back(),
        Instruction::ComplementCarry => lemma_plain_low_decodes_back(),
        Instruction::JumpRelative => lemma_plain_low_decodes_back(),
        Instruction::JumpRelativeIf(condition) => lemma_conditional_decodes_back(condition),
        Instruction::Stop => lemma_plain_low_decodes_back(),
        Instruction::Load8(to, from) => lemma_copy_decodes_back(to, from),
        Instruction::Halt => lemma_plain_low_decodes_back(),
        Instruction::Arithmetic8(operation, operand) => lemma_arithmetic_decodes_back(
            operation,
            operand,
        ),
        Instruction::ArithmeticImmediate(operation) => lemma_arithmetic_decodes_back(
            operation,
            Register8::B,
        ),
        Instruction::ReturnIf(condition) => lemma_conditional_decodes_back(condition),
        Instruction::Return => lemma_plain_high_decodes_back(),
        Instruction::ReturnFromInterrupt => lemma_plain_high_decodes_back(),
        Instruction::JumpIf(condition) => lemma_conditional_decodes_back(condition),
        Instruction::Jump => lemma_plain_high_decodes_back(),
        Instruction::JumpToHL => lemma_plain_high_decodes_back(),
        Instruction::CallIf(condition) => lemma_conditional_decodes_back(condition),
        Instruction::Call => lemma_plain_high_decodes_back(),
        Instruction::Restart(target) => lemma_restart_decodes_back(target),
        Instruction::Pop(pair) => lemma_stack_decodes_back(pair),
        Instruction::Push(pair) => lemma_stack_decodes_back(pair),
        Instruction::StoreHighAtC => lemma_plain_high_decodes_back(),
        Instruction::StoreHigh => lemma_plain_high_decodes_back(),
        Instruction::StoreAbsolute => lemma_plain_high_decodes_back(),
        Instruction::LoadHighAtC => lemma_plain_high_decodes_back(),
        Instruction::LoadHigh => lemma_plain_high_decodes_back(),
        Instruction::LoadAbsolute => lemma_plain_high_decodes_back(),
        Instruction::AddToStackPointer => lemma_plain_high_decodes_back(),
        Instruction::LoadHLFromStackPointer => lemma_plain_high_decodes_back(),
        Instruction::LoadStackPointerFromHL => lemma_plain_high_decodes_back(),
        Instruction::DisableInterrupts => lemma_plain_high_decodes_back(),
        Instruction::EnableInterrupts => lemma_plain_high_decodes_back(),
        Instruction::Shift8(operation, operand) => lemma_prefixed_decodes_back(
            operation,
            0,
            operand,
        ),
        Instruction::TestBit(bit, operand) => lemma_prefixed_decodes_back(
            ShiftOperation::RotateLeft,
            bit,
            operand,
        ),
        Instruction::ResetBit(bit, operand) => lemma_prefixed_decodes_back(
            ShiftOperation::RotateLeft,
            bit,
            operand,
        ),
        Instruction::SetBit(bit, operand) => lemma_prefixed_decodes_back(
            ShiftOperation::RotateLeft,
            bit,
            operand,
        ),
    }
}

/// The opcode of a well-formed instruction fits in a byte.
pub proof fn lemma_opcode_is_byte(instruction: Instruction)
    requires
        instruction.well_formed(),
    ensures
        0 <= instruction.opcode() < 256,
{
    match instruction {
        Instruction::Load8(to, from) => {
            lemma_opcode_fields(0x40, to.code() as int, from.code() as int);
        },
        Instruction::Arithmetic8(operation, operand) => {
            lemma_opcode_fields(0x80, operation.code() as int, operand.code() as int);
        },
        Instruction::Shift8(operation, operand) => {
            lemma_opcode_fields(0x00, operation.code() as int, operand.code() as int);
        },
        Instruction::TestBit(bit, operand) => {
            lemma_opcode_fields(0x40, bit as int, operand.code() as int);
        },
        Instruction::ResetBit(bit, operand) => {
            lemma_opcode_fields(0x80, bit as int, operand.code() as int);
        },
        Instruction::SetBit(bit, operand) => {
            lemma_opcode_fields(0xC0, bit as int, operand.code() as int);
        },
        _ => {},
    }
}

} // verus!
