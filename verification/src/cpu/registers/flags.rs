//! The flags register: four condition flags that read as the upper nibble
//! of one byte.

use vstd::prelude::*;
use vstd::arithmetic::power2::lemma2_to64;
use vstd::std_specs::convert::FromSpecImpl;
use crate::helpers::bit_operations::spec_get_bit_u8;

verus! {

/// Bit 7 of the flags byte: the last result was zero.
pub const ZERO_FLAG: u8 = 0b1000_0000;

/// Bit 6 of the flags byte: the last operation was a subtraction.
pub const SUBTRACT_FLAG: u8 = 0b0100_0000;

/// Bit 5 of the flags byte: the last operation carried out of the low
/// nibble.
pub const HALF_CARRY_FLAG: u8 = 0b0010_0000;

/// Bit 4 of the flags byte: the last operation carried out of the operand.
pub const CARRY_FLAG: u8 = 0b0001_0000;

/// State of the zero flag when the boot sequence hands over.
pub const INITIAL_Z: bool = false;

/// State of the subtract flag when the boot sequence hands over.
pub const INITIAL_N: bool = false;

/// State of the half-carry flag when the boot sequence hands over.
pub const INITIAL_H: bool = false;

/// State of the carry flag when the boot sequence hands over.
pub const INITIAL_C: bool = false;

/// The four condition flags of the processor. As a byte they fill bits 7 to
/// 4, in the order zero, subtract, half carry, carry; bits 3 to 0 of that
/// byte are always zero.
#[derive(Debug, Copy, Clone, PartialEq, Eq, Structural)]
pub struct CPUFlagsRegister {
    /// Set when the result of the operation is zero.
    pub zero: bool,
    /// Set when the operation was a subtraction.
    pub subtract: bool,
    /// Set when the operation carried from the lower four bits into the
    /// upper four.
    pub half_carry: bool,
    /// Set when the operation carried or borrowed out of the operand.
    pub carry: bool,
}

/// The weight that a flag contributes to the flags byte when it is set.
pub open spec fn flag_weight(flag: bool, weight: u8) -> int {
    if flag {
        weight as int
    } else {
        0
    }
}

proof fn lemma_flag_bits(value: u8)
    by (bit_vector)
    ensures
        (value & 0b1000_0000 != 0) == ((value / 128) % 2 == 1),
        (value & 0b0100_0000 != 0) == ((value / 64) % 2 == 1),
        (value & 0b0010_0000 != 0) == ((value / 32) % 2 == 1),
        (value & 0b0001_0000 != 0) == ((value / 16) % 2 == 1),
{
}

proof fn lemma_flag_byte(zero: u8, subtract: u8, half_carry: u8, carry: u8)
    by (bit_vector)
    requires
        zero == 0 || zero == 0b1000_0000,
        subtract == 0 || subtract == 0b0100_0000,
        half_carry == 0 || half_carry == 0b0010_0000,
        carry == 0 || carry == 0b0001_0000,
    ensures
        zero | subtract | half_carry | carry == zero + subtract + half_carry + carry,
{
}

proof fn lemma_upper_nibble(value: u8)
    by (bit_vector)
    ensures
        value & 0xF0 == value - value % 16,
{
}

proof fn lemma_upper_nibble_weights(value: u8)
    by (bit_vector)
    ensures
        128 * ((value / 128) % 2) + 64 * ((value / 64) % 2) + 32 * ((value / 32) % 2) + 16 * ((value
            / 16) % 2) == value - value % 16,
{
}

impl CPUFlagsRegister {
    /// The byte form of the flags: each set flag contributes its bit, and
    /// the low nibble is zero.
    pub open spec fn spec_to_byte(self) -> u8 {
        (flag_weight(self.zero, ZERO_FLAG) + flag_weight(self.subtract, SUBTRACT_FLAG)
            + flag_weight(self.half_carry, HALF_CARRY_FLAG) + flag_weight(
            self.carry,
            CARRY_FLAG,
        )) as u8
    }

    /// The flags that a byte holds in bits 7 to 4; the low nibble has no
    /// part in them.
    pub open spec fn spec_from_byte(value: u8) -> CPUFlagsRegister {
        CPUFlagsRegister {
            zero: (value / 128) % 2 == 1,
            subtract: (value / 64) % 2 == 1,
            half_carry: (value / 32) % 2 == 1,
            carry: (value / 16) % 2 == 1,
        }
    }

    /// The flags as the boot sequence leaves them: all clear.
    pub fn initialize() -> (flags: Self)
        ensures
            flags == (CPUFlagsRegister {
                zero: false,
                subtract: false,
                half_carry: false,
                carry: false,
            }),
    {
        Self {
            zero: INITIAL_Z,
            subtract: INITIAL_N,
            half_carry: INITIAL_H,
            carry: INITIAL_C,
        }
    }

    /// Packs the flags into a byte with a zero low nibble.
    #[verifier::when_used_as_spec(spec_to_byte)]
    pub fn to_byte(self) -> (value: u8)
        ensures
            value == self.spec_to_byte(),
    {
        let zero: u8 = if self.zero { ZERO_FLAG } else { 0 };
        let subtract: u8 = if self.subtract { SUBTRACT_FLAG } else { 0 };
        let half_carry: u8 = if self.half_carry { HALF_CARRY_FLAG } else { 0 };
        let carry: u8 = if self.carry { CARRY_FLAG } else { 0 };
        proof {
            lemma_flag_byte(zero, subtract, half_carry, carry);
        }
        zero | subtract | half_carry | carry
    }

    /// Reads the flags from bits 7 to 4 of a byte and ignores its low
    /// nibble.
    #[verifier::when_used_as_spec(spec_from_byte)]
    pub fn from_byte(value: u8) -> (flags: Self)
        ensures
            flags == Self::spec_from_byte(value),
    {
        proof {
            lemma_flag_bits(value);
        }
        Self {
            zero: (value & ZERO_FLAG) != 0,
            subtract: (value & SUBTRACT_FLAG) != 0,
            half_carry: (value & HALF_CARRY_FLAG) != 0,
            carry: (value & CARRY_FLAG) != 0,
        }
    }

    /// The zero flag.
    pub fn get_zero(&self) -> (value: bool)
        ensures
            value == self.zero,
    {
        self.zero
    }

    /// Sets the zero flag and leaves the other three as they are.
    pub fn set_zero(&mut self, value: bool)
        ensures
            *final(self) == (CPUFlagsRegister { zero: value, ..*old(self) }),
    {
        self.zero = value;
    }

    /// The subtract flag.
    pub fn get_subtract(&self) -> (value: bool)
        ensures
            value == self.subtract,
    {
        self.subtract
    }

    /// Sets the subtract flag and leaves the other three as they are.
    pub fn set_subtract(&mut self, value: bool)
        ensures
            *final(self) == (CPUFlagsRegister { subtract: value, ..*old(self) }),
    {
        self.subtract = value;
    }

    /// The half-carry flag.
    pub fn get_half_carry(&self) -> (value: bool)
        ensures
            value == self.half_carry,
    {
        self.half_carry
    }

    /// Sets the half-carry flag and leaves the other three as they are.
    pub fn set_half_carry(&mut self, value: bool)
        ensures
            *final(self) == (CPUFlagsRegister { half_carry: value, ..*old(self) }),
    {
        self.half_carry = value;
    }

    /// The carry flag.
    pub fn get_carry(&self) -> (value: bool)
        ensures
            value == self.carry,
    {
        self.carry
    }

    /// Sets the carry flag and leaves the other three as they are.
    pub fn set_carry(&mut self, value: bool)
        ensures
            *final(self) == (CPUFlagsRegister { carry: value, ..*old(self) }),
    {
        self.carry = value;
    }
}

impl Default for CPUFlagsRegister {
    /// All four flags clear.
    fn default() -> (flags: Self)
        ensures
            flags == (CPUFlagsRegister {
                zero: false,
                subtract: false,
                half_carry: false,
                carry: false,
            }),
    {
        Self { zero: false, subtract: false, half_carry: false, carry: false }
    }
}

impl From<CPUFlagsRegister> for u8 {
    /// The byte form of the flags.
    fn from(value: CPUFlagsRegister) -> (byte: Self) {
        value.to_byte()
    }
}

impl FromSpecImpl<CPUFlagsRegister> for u8 {
    open spec fn obeys_from_spec() -> bool {
        true
    }

    open spec fn from_spec(value: CPUFlagsRegister) -> Self {
        value.spec_to_byte()
    }
}

impl From<u8> for CPUFlagsRegister {
    /// The flags held in the upper nibble of a byte.
    fn from(value: u8) -> (flags: Self) {
        CPUFlagsRegister::from_byte(value)
    }
}

impl FromSpecImpl<u8> for CPUFlagsRegister {
    open spec fn obeys_from_spec() -> bool {
        true
    }

    open spec fn from_spec(value: u8) -> Self {
        CPUFlagsRegister::spec_from_byte(value)
    }
}

/// Reading the flags from a byte and packing them again keeps the upper
/// nibble and clears the lower one.
pub proof fn lemma_byte_to_flags_to_byte(value: u8)
    ensures
        CPUFlagsRegister::from_byte(value).to_byte() == value & 0xF0,
        CPUFlagsRegister::from_byte(value).to_byte() == value - value % 16,
{
    lemma_upper_nibble(value);
    lemma_upper_nibble_weights(value);
}

/// Packing flags into a byte and reading them again gives the same flags.
pub proof fn lemma_flags_to_byte_to_flags(flags: CPUFlagsRegister)
    ensures
        CPUFlagsRegister::from_byte(flags.to_byte()) == flags,
        flags.to_byte() % 16 == 0,
{
}

/// Each flag is one bit of the byte form: zero is bit 7, subtract bit 6,
/// half carry bit 5 and carry bit 4.
pub proof fn lemma_flags_are_bits(value: u8)
    ensures
        CPUFlagsRegister::from_byte(value).zero == spec_get_bit_u8(value, 7),
        CPUFlagsRegister::from_byte(value).subtract == spec_get_bit_u8(value, 6),
        CPUFlagsRegister::from_byte(value).half_carry == spec_get_bit_u8(value, 5),
        CPUFlagsRegister::from_byte(value).carry == spec_get_bit_u8(value, 4),
{
    lemma2_to64();
}

} // verus!
