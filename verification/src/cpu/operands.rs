//! The operands that an opcode can name: registers, pairs, conditions and
//! operations.
//!
//! Each of them is a field of two or three bits in the opcode. Every type
//! here says which number stands for which operand.

use vstd::prelude::*;

verus! {

/// The byte that announces an instruction of the second opcode table.
pub const PREFIX: u8 = 0xCB;

/// An 8-bit operand: one of the seven 8-bit registers, or the byte on the
/// bus at the address held in HL.
#[derive(Debug, Copy, Clone, PartialEq, Eq, Structural)]
pub enum Register8 {
    /// Register B.
    B,
    /// Register C.
    C,
    /// Register D.
    D,
    /// Register E.
    E,
    /// Register H.
    H,
    /// Register L.
    L,
    /// The byte at the address in HL.
    HLIndirect,
    /// The accumulator.
    A,
}

impl Register8 {
    /// The number that stands for this operand in an opcode.
    pub open spec fn code(self) -> u8 {
        match self {
            Register8::B => 0,
            Register8::C => 1,
            Register8::D => 2,
            Register8::E => 3,
            Register8::H => 4,
            Register8::L => 5,
            Register8::HLIndirect => 6,
            Register8::A => 7,
        }
    }

    /// The operand that `code` stands for. A code past the last one stands
    /// for the last operand.
    pub open spec fn spec_from_code(code: u8) -> Register8 {
        if code == 0 {
            Register8::B
        } else if code == 1 {
            Register8::C
        } else if code == 2 {
            Register8::D
        } else if code == 3 {
            Register8::E
        } else if code == 4 {
            Register8::H
        } else if code == 5 {
            Register8::L
        } else if code == 6 {
            Register8::HLIndirect
        } else {
            Register8::A
        }
    }

    /// The operand that `code` stands for. A code past the last one stands
    /// for the last operand.
    #[verifier::when_used_as_spec(spec_from_code)]
    pub fn from_code(code: u8) -> (operand: Self)
        ensures
            operand == Self::spec_from_code(code),
            code < 8 ==> operand.code() == code,
    {
        if code == 0 {
            Register8::B
        } else if code == 1 {
            Register8::C
        } else if code == 2 {
            Register8::D
        } else if code == 3 {
            Register8::E
        } else if code == 4 {
            Register8::H
        } else if code == 5 {
            Register8::L
        } else if code == 6 {
            Register8::HLIndirect
        } else {
            Register8::A
        }
    }
}

/// A 16-bit operand of the load and arithmetic instructions.
#[derive(Debug, Copy, Clone, PartialEq, Eq, Structural)]
pub enum Register16 {
    /// The pair BC.
    BC,
    /// The pair DE.
    DE,
    /// The pair HL.
    HL,
    /// The stack pointer.
    SP,
}

impl Register16 {
    /// The number that stands for this operand in an opcode.
    pub open spec fn code(self) -> u8 {
        match self {
            Register16::BC => 0,
            Register16::DE => 1,
            Register16::HL => 2,
            Register16::SP => 3,
        }
    }

    /// The operand that `code` stands for. A code past the last one stands
    /// for the last operand.
    pub open spec fn spec_from_code(code: u8) -> Register16 {
        if code == 0 {
            Register16::BC
        } else if code == 1 {
            Register16::DE
        } else if code == 2 {
            Register16::HL
        } else {
            Register16::SP
        }
    }

    /// The operand that `code` stands for. A code past the last one stands
    /// for the last operand.
    #[verifier::when_used_as_spec(spec_from_code)]
    pub fn from_code(code: u8) -> (operand: Self)
        ensures
            operand == Self::spec_from_code(code),
            code < 4 ==> operand.code() == code,
    {
        if code == 0 {
            Register16::BC
        } else if code == 1 {
            Register16::DE
        } else if code == 2 {
            Register16::HL
        } else {
            Register16::SP
        }
    }
}

/// A 16-bit operand of the stack instructions.
#[derive(Debug, Copy, Clone, PartialEq, Eq, Structural)]
pub enum StackRegister16 {
    /// The pair BC.
    BC,
    /// The pair DE.
    DE,
    /// The pair HL.
    HL,
    /// The accumulator and the flags.
    AF,
}

impl StackRegister16 {
    /// The number that stands for this operand in an opcode.
    pub open spec fn code(self) -> u8 {
        match self {
            StackRegister16::BC => 0,
            StackRegister16::DE => 1,
            StackRegister16::HL => 2,
            StackRegister16::AF => 3,
        }
    }

    /// The operand that `code` stands for. A code past the last one stands
    /// for the last operand.
    pub open spec fn spec_from_code(code: u8) -> StackRegister16 {
        if code == 0 {
            StackRegister16::BC
        } else if code == 1 {
            StackRegister16::DE
        } else if code == 2 {
            StackRegister16::HL
        } else {
            StackRegister16::AF
        }
    }

    /// The operand that `code` stands for. A code past the last one stands
    /// for the last operand.
    #[verifier::when_used_as_spec(spec_from_code)]
    pub fn from_code(code: u8) -> (operand: Self)
        ensures
            operand == Self::spec_from_code(code),
            code < 4 ==> operand.code() == code,
    {
        if code == 0 {
            StackRegister16::BC
        } else if code == 1 {
            StackRegister16::DE
        } else if code == 2 {
            StackRegister16::HL
        } else {
            StackRegister16::AF
        }
    }
}

/// The pair that holds the address of an accumulator transfer.
#[derive(Debug, Copy, Clone, PartialEq, Eq, Structural)]
pub enum MemoryRegister16 {
    /// The address in BC.
    BC,
    /// The address in DE.
    DE,
    /// The address in HL; HL moves up by one afterwards.
    HLIncrement,
    /// The address in HL; HL moves down by one afterwards.
    HLDecrement,
}

impl MemoryRegister16 {
    /// The number that stands for this operand in an opcode.
    pub open spec fn code(self) -> u8 {
        match self {
            MemoryRegister16::BC => 0,
            MemoryRegister16::DE => 1,
            MemoryRegister16::HLIncrement => 2,
            MemoryRegister16::HLDecrement => 3,
        }
    }

    /// The operand that `code` stands for. A code past the last one stands
    /// for the last operand.
    pub open spec fn spec_from_code(code: u8) -> MemoryRegister16 {
        if code == 0 {
            MemoryRegister16::BC
        } else if code == 1 {
            MemoryRegister16::DE
        } else if code == 2 {
            MemoryRegister16::HLIncrement
        } else {
            MemoryRegister16::HLDecrement
        }
    }

    /// The operand that `code` stands for. A code past the last one stands
    /// for the last operand.
    #[verifier::when_used_as_spec(spec_from_code)]
    pub fn from_code(code: u8) -> (operand: Self)
        ensures
            operand == Self::spec_from_code(code),
            code < 4 ==> operand.code() == code,
    {
        if code == 0 {
            MemoryRegister16::BC
        } else if code == 1 {
            MemoryRegister16::DE
        } else if code == 2 {
            MemoryRegister16::HLIncrement
        } else {
            MemoryRegister16::HLDecrement
        }
    }
}

/// A condition on the flags for jumps, calls and returns.
#[derive(Debug, Copy, Clone, PartialEq, Eq, Structural)]
pub enum Condition {
    /// The zero flag is clear.
    NotZero,
    /// The zero flag is set.
    Zero,
    /// The carry flag is clear.
    NotCarry,
    /// The carry flag is set.
    Carry,
}

impl Condition {
    /// The number that stands for this operand in an opcode.
    pub open spec fn code(self) -> u8 {
        match self {
            Condition::NotZero => 0,
            Condition::Zero => 1,
            Condition::NotCarry => 2,
            Condition::Carry => 3,
        }
    }

    /// The operand that `code` stands for. A code past the last one stands
    /// for the last operand.
    pub open spec fn spec_from_code(code: u8) -> Condition {
        if code == 0 {
            Condition::NotZero
        } else if code == 1 {
            Condition::Zero
        } else if code == 2 {
            Condition::NotCarry
        } else {
            Condition::Carry
        }
    }

    /// The operand that `code` stands for. A code past the last one stands
    /// for the last operand.
    #[verifier::when_used_as_spec(spec_from_code)]
    pub fn from_code(code: u8) -> (operand: Self)
        ensures
            operand == Self::spec_from_code(code),
            code < 4 ==> operand.code() == code,
    {
        if code == 0 {
            Condition::NotZero
        } else if code == 1 {
            Condition::Zero
        } else if code == 2 {
            Condition::NotCarry
        } else {
            Condition::Carry
        }
    }
}

/// An operation of the accumulator with an 8-bit operand.
#[derive(Debug, Copy, Clone, PartialEq, Eq, Structural)]
pub enum ArithmeticOperation {
    /// Addition.
    Add,
    /// Addition with the carry flag.
    AddCarry,
    /// Subtraction.
    Subtract,
    /// Subtraction with the carry flag.
    SubtractCarry,
    /// Bitwise and.
    And,
    /// Bitwise exclusive or.
    Xor,
    /// Bitwise or.
    Or,
    /// Subtraction that sets the flags and drops the result.
    Compare,
}

impl ArithmeticOperation {
    /// The number that stands for this operand in an opcode.
    pub open spec fn code(self) -> u8 {
        match self {
            ArithmeticOperation::Add => 0,
            ArithmeticOperation::AddCarry => 1,
            ArithmeticOperation::Subtract => 2,
            ArithmeticOperation::SubtractCarry => 3,
            ArithmeticOperation::And => 4,
            ArithmeticOperation::Xor => 5,
            ArithmeticOperation::Or => 6,
            ArithmeticOperation::Compare => 7,
        }
    }

    /// The operand that `code` stands for. A code past the last one stands
    /// for the last operand.
    pub open spec fn spec_from_code(code: u8) -> ArithmeticOperation {
        if code == 0 {
            ArithmeticOperation::Add
        } else if code == 1 {
            ArithmeticOperation::AddCarry
        } else if code == 2 {
            ArithmeticOperation::Subtract
        } else if code == 3 {
            ArithmeticOperation::SubtractCarry
        } else if code == 4 {
            ArithmeticOperation::And
        } else if code == 5 {
            ArithmeticOperation::Xor
        } else if code == 6 {
            ArithmeticOperation::Or
        } else {
            ArithmeticOperation::Compare
        }
    }

    /// The operand that `code` stands for. A code past the last one stands
    /// for the last operand.
    #[verifier::when_used_as_spec(spec_from_code)]
    pub fn from_code(code: u8) -> (operand: Self)
        ensures
            operand == Self::spec_from_code(code),
            code < 8 ==> operand.code() == code,
    {
        if code == 0 {
            ArithmeticOperation::Add
        } else if code == 1 {
            ArithmeticOperation::AddCarry
        } else if code == 2 {
            ArithmeticOperation::Subtract
        } else if code == 3 {
            ArithmeticOperation::SubtractCarry
        } else if code == 4 {
            ArithmeticOperation::And
        } else if code == 5 {
            ArithmeticOperation::Xor
        } else if code == 6 {
            ArithmeticOperation::Or
        } else {
            ArithmeticOperation::Compare
        }
    }
}

/// A rotation or shift of an 8-bit operand.
#[derive(Debug, Copy, Clone, PartialEq, Eq, Structural)]
pub enum ShiftOperation {
    /// Rotation to the left; bit 7 comes back in at bit 0.
    RotateLeft,
    /// Rotation to the right; bit 0 comes back in at bit 7.
    RotateRight,
    /// Rotation to the left through the carry flag.
    RotateLeftThroughCarry,
    /// Rotation to the right through the carry flag.
    RotateRightThroughCarry,
    /// Shift to the left; bit 0 becomes zero.
    ShiftLeft,
    /// Shift to the right; bit 7 keeps its value.
    ShiftRightArithmetic,
    /// Exchange of the two nibbles.
    Swap,
    /// Shift to the right; bit 7 becomes zero.
    ShiftRightLogical,
}

impl ShiftOperation {
    /// The number that stands for this operand in an opcode.
    pub open spec fn code(self) -> u8 {
        match self {
            ShiftOperation::RotateLeft => 0,
            ShiftOperation::RotateRight => 1,
            ShiftOperation::RotateLeftThroughCarry => 2,
            ShiftOperation::RotateRightThroughCarry => 3,
            ShiftOperation::ShiftLeft => 4,
            ShiftOperation::ShiftRightArithmetic => 5,
            ShiftOperation::Swap => 6,
            ShiftOperation::ShiftRightLogical => 7,
        }
    }

    /// The operand that `code` stands for. A code past the last one stands
    /// for the last operand.
    pub open spec fn spec_from_code(code: u8) -> ShiftOperation {
        if code == 0 {
            ShiftOperation::RotateLeft
        } else if code == 1 {
            ShiftOperation::RotateRight
        } else if code == 2 {
            ShiftOperation::RotateLeftThroughCarry
        } else if code == 3 {
            ShiftOperation::RotateRightThroughCarry
        } else if code == 4 {
            ShiftOperation::ShiftLeft
        } else if code == 5 {
            ShiftOperation::ShiftRightArithmetic
        } else if code == 6 {
            ShiftOperation::Swap
        } else {
            ShiftOperation::ShiftRightLogical
        }
    }

    /// The operand that `code` stands for. A code past the last one stands
    /// for the last operand.
    #[verifier::when_used_as_spec(spec_from_code)]
    pub fn from_code(code: u8) -> (operand: Self)
        ensures
            operand == Self::spec_from_code(code),
            code < 8 ==> operand.code() == code,
    {
        if code == 0 {
            ShiftOperation::RotateLeft
        } else if code == 1 {
            ShiftOperation::RotateRight
        } else if code == 2 {
            ShiftOperation::RotateLeftThroughCarry
        } else if code == 3 {
            ShiftOperation::RotateRightThroughCarry
        } else if code == 4 {
            ShiftOperation::ShiftLeft
        } else if code == 5 {
            ShiftOperation::ShiftRightArithmetic
        } else if code == 6 {
            ShiftOperation::Swap
        } else {
            ShiftOperation::ShiftRightLogical
        }
    }
}

impl Register8 {
    /// Codes and operands stand for each other one to one.
    pub proof fn lemma_code(self, code: u8)
        ensures
            self.code() < 8,
            Self::spec_from_code(self.code()) == self,
            code < 8 ==> Self::spec_from_code(code).code() == code,
    {
    }
}

impl Register16 {
    /// Codes and operands stand for each other one to one.
    pub proof fn lemma_code(self, code: u8)
        ensures
            self.code() < 4,
            Self::spec_from_code(self.code()) == self,
            code < 4 ==> Self::spec_from_code(code).code() == code,
    {
    }
}

impl StackRegister16 {
    /// Codes and operands stand for each other one to one.
    pub proof fn lemma_code(self, code: u8)
        ensures
            self.code() < 4,
            Self::spec_from_code(self.code()) == self,
            code < 4 ==> Self::spec_from_code(code).code() == code,
    {
    }
}

impl MemoryRegister16 {
    /// Codes and operands stand for each other one to one.
    pub proof fn lemma_code(self, code: u8)
        ensures
            self.code() < 4,
            Self::spec_from_code(self.code()) == self,
            code < 4 ==> Self::spec_from_code(code).code() == code,
    {
    }
}

impl Condition {
    /// Codes and operands stand for each other one to one.
    pub proof fn lemma_code(self, code: u8)
        ensures
            self.code() < 4,
            Self::spec_from_code(self.code()) == self,
            code < 4 ==> Self::spec_from_code(code).code() == code,
    {
    }
}

impl ArithmeticOperation {
    /// Codes and operands stand for each other one to one.
    pub proof fn lemma_code(self, code: u8)
        ensures
            self.code() < 8,
            Self::spec_from_code(self.code()) == self,
            code < 8 ==> Self::spec_from_code(code).code() == code,
    {
    }
}

impl ShiftOperation {
    /// Codes and operands stand for each other one to one.
    pub proof fn lemma_code(self, code: u8)
        ensures
            self.code() < 8,
            Self::spec_from_code(self.code()) == self,
            code < 8 ==> Self::spec_from_code(code).code() == code,
    {
    }
}

} // verus!
