//! Byte and bit primitives: joining and splitting 16-bit values, reading and
//! writing single bits, carry-aware addition and subtraction, and rotations.
//!
//! Every function is pure and total on its documented domain. Each one is
//! specified by a `spec_*` function written in plain integer arithmetic, so
//! that callers can reason about results without bit-vector proofs.

use vstd::prelude::*;
use vstd::arithmetic::power2::{pow2, lemma2_to64};
use vstd::bits::{lemma_u8_shr_is_div, lemma_u16_shr_is_div, lemma_u8_shl_is_mul};

verus! {

/// The 16-bit value with low byte `lsb` and high byte `msb`.
pub open spec fn spec_construct_u16(lsb: u8, msb: u8) -> u16 {
    (msb * 256 + lsb) as u16
}

/// The low byte and the high byte of `value`, in that order.
pub open spec fn spec_deconstruct_u16(value: u16) -> (u8, u8) {
    ((value % 256) as u8, (value / 256) as u8)
}

/// Whether the binary digit of weight `2^bit_index` is set in `value`.
pub open spec fn bit_is_set(value: nat, bit_index: nat) -> bool {
    (value / pow2(bit_index)) % 2 == 1
}

/// Bit `bit_index` of a byte; index 0 is the least significant bit.
pub open spec fn spec_get_bit_u8(value: u8, bit_index: usize) -> bool {
    bit_is_set(value as nat, bit_index as nat)
}

/// Bit `bit_index` of a 16-bit value; index 0 is the least significant bit.
pub open spec fn spec_get_bit_u16(value: u16, bit_index: usize) -> bool {
    bit_is_set(value as nat, bit_index as nat)
}

/// `value` with the digit of weight `2^bit_index` replaced by `bit`.
pub open spec fn spec_set_bit_u8(value: u8, bit_index: usize, bit: bool) -> u8 {
    let weight = pow2(bit_index as nat);
    let removed = if spec_get_bit_u8(value, bit_index) { weight } else { 0 };
    let inserted = if bit { weight } else { 0 };
    (value - removed + inserted) as u8
}

proof fn lemma_join_bytes(lsb: u8, msb: u8)
    by (bit_vector)
    ensures
        (lsb as u16) | ((msb as u16) << 8) == msb * 256 + lsb,
{
}

proof fn lemma_split_bytes(value: u16)
    by (bit_vector)
    ensures
        value as u8 == value % 256,
        (value >> 8) as u8 == value / 256,
{
}

proof fn lemma_lowest_bit_u8(value: u8)
    by (bit_vector)
    ensures
        (value & 1 == 1) <==> value % 2 == 1,
{
}

proof fn lemma_lowest_bit_u16(value: u16)
    by (bit_vector)
    ensures
        (value & 1 == 1) <==> value % 2 == 1,
{
}

proof fn lemma_mask_bit_u8(value: u8, bit_index: u8)
    by (bit_vector)
    requires
        bit_index < 8,
    ensures
        value | (1u8 << bit_index) == if (value >> bit_index) & 1 == 1 {
            value as int
        } else {
            value + (1u8 << bit_index)
        },
        value & !(1u8 << bit_index) == if (value >> bit_index) & 1 == 1 {
            value - (1u8 << bit_index)
        } else {
            value as int
        },
{
}

proof fn lemma_set_bit_u8_is_mask(value: u8, bit_index: u8, bit: bool)
    requires
        bit_index < 8,
    ensures
        spec_set_bit_u8(value, bit_index as usize, bit) == if bit {
            value | (1u8 << bit_index)
        } else {
            value & !(1u8 << bit_index)
        },
{
    lemma2_to64();
    lemma_u8_shr_is_div(value, bit_index);
    lemma_u8_shl_is_mul(1, bit_index);
    lemma_lowest_bit_u8(value >> bit_index);
    lemma_mask_bit_u8(value, bit_index);
}

/// Joins two bytes into a 16-bit value: `lsb` becomes bits 0 to 7 and `msb`
/// bits 8 to 15.
#[verifier::when_used_as_spec(spec_construct_u16)]
pub fn construct_u16(lsb: u8, msb: u8) -> (value: u16)
    ensures
        value == spec_construct_u16(lsb, msb),
        value == msb * 256 + lsb,
{
    proof {
        lemma_join_bytes(lsb, msb);
    }
    lsb as u16 | ((msb as u16) << 8)
}

/// Splits a 16-bit value into its low byte and its high byte, in that order.
#[verifier::when_used_as_spec(spec_deconstruct_u16)]
pub fn deconstruct_u16(value: u16) -> (bytes: (u8, u8))
    ensures
        bytes == spec_deconstruct_u16(value),
        bytes.0 == value % 256,
        bytes.1 == value / 256,
{
    proof {
        lemma_split_bytes(value);
    }
    (#[verifier::truncate] (value as u8), #[verifier::truncate] ((value >> 8) as u8))
}

/// Reads bit `bit_index` of `value`. Bits are numbered from the least
/// significant one, which has index 0.
#[verifier::when_used_as_spec(spec_get_bit_u8)]
pub fn get_bit_u8(value: u8, bit_index: usize) -> (bit: bool)
    requires
        bit_index < 8,
    ensures
        bit == spec_get_bit_u8(value, bit_index),
{
    proof {
        lemma_u8_shr_is_div(value, bit_index as u8);
        lemma_lowest_bit_u8(value >> bit_index);
    }
    (value >> bit_index) & 1 == 1
}

/// Returns `value` with bit `bit_index` replaced by `bit`; every other bit
/// is kept. Bits are numbered from the least significant one, which has
/// index 0.
#[verifier::when_used_as_spec(spec_set_bit_u8)]
pub fn set_bit_u8(value: u8, bit_index: usize, bit: bool) -> (updated: u8)
    requires
        bit_index < 8,
    ensures
        updated == spec_set_bit_u8(value, bit_index, bit),
{
    proof {
        lemma_set_bit_u8_is_mask(value, bit_index as u8, bit);
    }
    if bit {
        value | (1 << bit_index)
    } else {
        value & !(1 << bit_index)
    }
}

/// Reads bit `bit_index` of a 16-bit `value`. Bits are numbered from the
/// least significant one, which has index 0.
#[verifier::when_used_as_spec(spec_get_bit_u16)]
pub fn get_bit_u16(value: u16, bit_index: usize) -> (bit: bool)
    requires
        bit_index < 16,
    ensures
        bit == spec_get_bit_u16(value, bit_index),
{
    proof {
        lemma_u16_shr_is_div(value, bit_index as u16);
        lemma_lowest_bit_u16(value >> bit_index);
    }
    (value >> bit_index) & 1 == 1
}

/// The value that a carry flag adds to a sum, or takes from a difference.
pub open spec fn carry_value(carry: bool) -> int {
    if carry {
        1
    } else {
        0
    }
}

/// The byte that holds the two's-complement bit pattern of `value`.
pub open spec fn byte_pattern(value: i8) -> u8 {
    if value < 0 {
        (value + 256) as u8
    } else {
        value as u8
    }
}

/// Sum of two bytes and an incoming carry, as `(result, half_carry, carry)`:
/// the sum modulo 256, whether the low nibbles overflow into bit 4, and
/// whether the full sum overflows the byte.
pub open spec fn spec_add_carry_u8(a: u8, b: u8, carry: bool) -> (u8, bool, bool) {
    let total = a + b + carry_value(carry);
    ((total % 256) as u8, (a % 16) + (b % 16) + carry_value(carry) > 15, total > 255)
}

/// Sum of two bytes, as `(result, half_carry, carry)`.
pub open spec fn spec_add_u8(a: u8, b: u8) -> (u8, bool, bool) {
    (((a + b) % 256) as u8, (a % 16) + (b % 16) > 15, a + b > 255)
}

/// Sum of two 16-bit values, as `(result, half_carry, carry)`: the sum modulo
/// 65536, whether the low twelve bits overflow into bit 12, and whether the
/// full sum overflows sixteen bits.
pub open spec fn spec_add_u16(a: u16, b: u16) -> (u16, bool, bool) {
    (((a + b) % 0x1_0000) as u16, (a % 0x1000) + (b % 0x1000) > 0x0FFF, a + b > 0xFFFF)
}

/// Sum of a 16-bit value and a signed byte, as `(result, half_carry, carry)`.
/// The result is the signed sum modulo 65536. Both flags come from the
/// unsigned addition of the low byte of `a` and the bit pattern of `b`.
pub open spec fn spec_add_u16_i8(a: u16, b: i8) -> (u16, bool, bool) {
    (
        ((a + b) % 0x1_0000) as u16,
        (a % 16) + (byte_pattern(b) % 16) > 15,
        (a % 256) + byte_pattern(b) > 255,
    )
}

/// Difference of two bytes, as `(result, half_carry, carry)`: the difference
/// modulo 256, whether the low nibble borrows from bit 4, and whether the
/// full difference borrows.
pub open spec fn spec_sub_u8(a: u8, b: u8) -> (u8, bool, bool) {
    (((a - b) % 256) as u8, (a % 16) < (b % 16), a < b)
}

/// Difference of two bytes and an incoming carry, as
/// `(result, half_carry, carry)`.
pub open spec fn spec_sub_carry_u8(a: u8, b: u8, carry: bool) -> (u8, bool, bool) {
    (
        ((a - b - carry_value(carry)) % 256) as u8,
        (a % 16) < (b % 16) + carry_value(carry),
        a < b + carry_value(carry),
    )
}

/// Left rotation of a byte by one place, as `(result, carry)`: every bit
/// moves up, bit 7 re-enters at bit 0 and is also the carry.
pub open spec fn spec_rotate_left_get_carry_u8(value: u8) -> (u8, bool) {
    (((value * 2) % 256 + value / 128) as u8, value >= 128)
}

/// Right rotation of a byte by one place, as `(result, carry)`: every bit
/// moves down, bit 0 re-enters at bit 7 and is also the carry.
pub open spec fn spec_rotate_right_get_carry_u8(value: u8) -> (u8, bool) {
    ((value / 2 + (value % 2) * 128) as u8, value % 2 == 1)
}

/// Right rotation of the nine bits made of a byte and the carry, as
/// `(result, carry)`: the incoming carry enters at bit 7 and bit 0 leaves as
/// the new carry.
pub open spec fn spec_rotate_right_through_carry_u8(value: u8, carry: bool) -> (u8, bool) {
    ((value / 2 + carry_value(carry) * 128) as u8, value % 2 == 1)
}

/// Left rotation of the nine bits made of a byte and the carry, as
/// `(result, carry)`: the incoming carry enters at bit 0 and bit 7 leaves as
/// the new carry.
pub open spec fn spec_rotate_left_through_carry_u8(value: u8, carry: bool) -> (u8, bool) {
    (((value * 2) % 256 + carry_value(carry)) as u8, value >= 128)
}

proof fn lemma_low_nibble(value: u8)
    by (bit_vector)
    ensures
        value & 0x0F == value % 16,
{
}

proof fn lemma_low_twelve_bits(value: u16)
    by (bit_vector)
    ensures
        value & 0x0FFF == value % 0x1000,
{
}

proof fn lemma_low_byte(value: u16)
    by (bit_vector)
    ensures
        value & 0xFF == value % 256,
{
}

proof fn lemma_shift_left_by_one(value: u8)
    by (bit_vector)
    ensures
        value << 1 == (value * 2) % 256,
{
}

proof fn lemma_shift_right_by_one(value: u8)
    by (bit_vector)
    ensures
        value >> 1 == value / 2,
{
}

proof fn lemma_rotate_left_by_one(value: u8)
    by (bit_vector)
    ensures
        (value << 1) | (value >> 7) == (value * 2) % 256 + value / 128,
{
}

proof fn lemma_rotate_right_by_one(value: u8)
    by (bit_vector)
    ensures
        (value >> 1) | (value << 7) == value / 2 + (value % 2) * 128,
{
}

/// Adds two bytes with wrap-around. The half carry reports an overflow out
/// of bit 3, the carry an overflow out of bit 7.
#[verifier::when_used_as_spec(spec_add_u8)]
pub fn add_u8(a: u8, b: u8) -> (sum: (u8, bool, bool))
    ensures
        sum == spec_add_u8(a, b),
{
    proof {
        lemma_low_nibble(a);
        lemma_low_nibble(b);
    }
    let result = a.wrapping_add(b);
    let carry = result < a;
    let h_carry = ((a & 0x0F) + (b & 0x0F)) > 0x0F;
    (result, h_carry, carry)
}

/// Adds two bytes and an incoming carry with wrap-around. Both flags take
/// the incoming carry into account.
#[verifier::when_used_as_spec(spec_add_carry_u8)]
pub fn add_carry_u8(a: u8, b: u8, carry: bool) -> (sum: (u8, bool, bool))
    ensures
        sum == spec_add_carry_u8(a, b, carry),
{
    proof {
        lemma_low_nibble(a);
        lemma_low_nibble(b);
    }
    let carry_in: u8 = if carry { 1 } else { 0 };
    let partial = a.wrapping_add(b);
    let carry1 = partial < a;
    let result = partial.wrapping_add(carry_in);
    let carry2 = result < partial;
    let h_carry = ((a & 0x0F) + (b & 0x0F) + carry_in) > 0x0F;
    (result, h_carry, carry1 || carry2)
}

/// Adds two 16-bit values with wrap-around. The half carry reports an
/// overflow out of bit 11, the carry an overflow out of bit 15.
#[verifier::when_used_as_spec(spec_add_u16)]
pub fn add_u16(a: u16, b: u16) -> (sum: (u16, bool, bool))
    ensures
        sum == spec_add_u16(a, b),
{
    proof {
        lemma_low_twelve_bits(a);
        lemma_low_twelve_bits(b);
    }
    let result = a.wrapping_add(b);
    let carry = result < a;
    let h_carry = ((a & 0x0FFF) + (b & 0x0FFF)) > 0x0FFF;
    (result, h_carry, carry)
}

/// Adds a signed byte to a 16-bit value with wrap-around. The flags are
/// those of the 8-bit addition of the low byte of `a` and the bit pattern of
/// `b`; the upper byte of the result has no part in them.
#[verifier::when_used_as_spec(spec_add_u16_i8)]
pub fn add_u16_i8(a: u16, b: i8) -> (sum: (u16, bool, bool))
    ensures
        sum == spec_add_u16_i8(a, b),
{
    proof {
        lemma_low_byte(a);
    }
    let result = a.wrapping_add_signed(b as i16);
    let lower_a = (a & 0xFF) as u8;
    let b_u8 = if b < 0 { (b as i16 + 256) as u8 } else { b as u8 };
    proof {
        lemma_low_nibble(lower_a);
        lemma_low_nibble(b_u8);
        assert(lower_a % 16 == a % 16);
        assert(b_u8 == byte_pattern(b));
        assert(result == (a + b) % 0x1_0000);
    }
    let h_carry = (lower_a & 0x0F) + (b_u8 & 0x0F) > 0x0F;
    let carry = lower_a.wrapping_add(b_u8) < lower_a;
    (result, h_carry, carry)
}

/// Subtracts `b` from `a` with wrap-around. The half carry reports a borrow
/// from bit 4, the carry a borrow out of the byte.
#[verifier::when_used_as_spec(spec_sub_u8)]
pub fn sub_u8(a: u8, b: u8) -> (difference: (u8, bool, bool))
    ensures
        difference == spec_sub_u8(a, b),
{
    proof {
        lemma_low_nibble(a);
        lemma_low_nibble(b);
    }
    let result = a.wrapping_sub(b);
    let carry = a < b;
    let h_carry = (a & 0x0F) < (b & 0x0F);
    (result, h_carry, carry)
}

/// Subtracts `b` and an incoming carry from `a` with wrap-around. Both flags
/// take the incoming carry into account.
#[verifier::when_used_as_spec(spec_sub_carry_u8)]
pub fn sub_carry_u8(a: u8, b: u8, carry: bool) -> (difference: (u8, bool, bool))
    ensures
        difference == spec_sub_carry_u8(a, b, carry),
{
    proof {
        lemma_low_nibble(a);
        lemma_low_nibble(b);
    }
    let carry_in: u8 = if carry { 1 } else { 0 };
    let partial = a.wrapping_sub(b);
    let carry1 = a < b;
    let result = partial.wrapping_sub(carry_in);
    let carry2 = partial < carry_in;
    let h_carry = (a & 0x0F) < ((b & 0x0F) + carry_in);
    (result, h_carry, carry1 || carry2)
}

/// Rotates a byte left by one place. The bit that leaves at the top comes
/// back in at bit 0 and is returned as the carry.
#[verifier::when_used_as_spec(spec_rotate_left_get_carry_u8)]
pub fn rotate_left_get_carry_u8(value: u8) -> (rotated: (u8, bool))
    ensures
        rotated == spec_rotate_left_get_carry_u8(value),
{
    proof {
        lemma2_to64();
        lemma_rotate_left_by_one(value);
    }
    let result = (value << 1) | (value >> 7);
    let carry = get_bit_u8(value, 7);
    (result, carry)
}

/// Rotates a byte right by one place. The bit that leaves at the bottom
/// comes back in at bit 7 and is returned as the carry.
#[verifier::when_used_as_spec(spec_rotate_right_get_carry_u8)]
pub fn rotate_right_get_carry_u8(value: u8) -> (rotated: (u8, bool))
    ensures
        rotated == spec_rotate_right_get_carry_u8(value),
{
    proof {
        lemma2_to64();
        lemma_rotate_right_by_one(value);
    }
    let result = (value >> 1) | (value << 7);
    let carry = get_bit_u8(value, 0);
    (result, carry)
}

/// Rotates a byte right by one place through the carry: the given carry
/// enters at bit 7, and the bit that leaves at the bottom is returned as the
/// new carry.
#[verifier::when_used_as_spec(spec_rotate_right_through_carry_u8)]
pub fn rotate_right_through_carry_u8(value: u8, carry: bool) -> (rotated: (u8, bool))
    ensures
        rotated == spec_rotate_right_through_carry_u8(value, carry),
{
    proof {
        lemma2_to64();
        lemma_shift_right_by_one(value);
    }
    let new_carry = get_bit_u8(value, 0);
    let result = set_bit_u8(value >> 1, 7, carry);
    (result, new_carry)
}

/// Rotates a byte left by one place through the carry: the given carry
/// enters at bit 0, and the bit that leaves at the top is returned as the
/// new carry.
#[verifier::when_used_as_spec(spec_rotate_left_through_carry_u8)]
pub fn rotate_left_through_carry_u8(value: u8, carry: bool) -> (rotated: (u8, bool))
    ensures
        rotated == spec_rotate_left_through_carry_u8(value, carry),
{
    proof {
        lemma2_to64();
        lemma_shift_left_by_one(value);
    }
    let new_carry = get_bit_u8(value, 7);
    let result = set_bit_u8(value << 1, 0, carry);
    (result, new_carry)
}

/// The pair that `times` successive left rotations through the carry make
/// of `(value, carry)`, each rotation taking the carry that the one before
/// it gave.
pub open spec fn rotate_left_through_carry_times(value: u8, carry: bool, times: nat) -> (u8, bool)
    decreases times,
{
    if times == 0 {
        (value, carry)
    } else {
        let once = spec_rotate_left_through_carry_u8(value, carry);
        rotate_left_through_carry_times(once.0, once.1, (times - 1) as nat)
    }
}

/// The nine-bit number whose top bit is the carry and whose low eight bits
/// are the byte.
pub open spec fn nine_bits(value: u8, carry: bool) -> int {
    carry_value(carry) * 256 + value
}

spec fn turn_nine_bits(bits: u16) -> u16 {
    ((bits * 2) % 512 + bits / 256) as u16
}

spec fn turn_nine_bits_times(bits: u16, times: nat) -> u16
    decreases times,
{
    if times == 0 {
        bits
    } else {
        turn_nine_bits_times(turn_nine_bits(bits), (times - 1) as nat)
    }
}

proof fn lemma_nine_turns(bits: u16)
    by (bit_vector)
    requires
        bits < 512,
    ensures
        turn_nine_bits(
            turn_nine_bits(
                turn_nine_bits(
                    turn_nine_bits(
                        turn_nine_bits(
                            turn_nine_bits(turn_nine_bits(turn_nine_bits(turn_nine_bits(bits)))),
                        ),
                    ),
                ),
            ),
        ) == bits,
{
}

proof fn lemma_four_turns(bits: u16)
    by (bit_vector)
    requires
        bits < 512,
    ensures
        turn_nine_bits(turn_nine_bits(turn_nine_bits(turn_nine_bits(bits)))) == (bits * 16) % 512
            + bits / 32,
{
}

proof fn lemma_four_turns_fixed(bits: u16)
    by (bit_vector)
    requires
        bits < 512,
    ensures
        (bits * 16) % 512 + bits / 32 == bits <==> bits == 0 || bits == 511,
{
}

proof fn lemma_rotations_turn_nine_bits(value: u8, carry: bool, times: nat)
    ensures
        ({
            let turned = rotate_left_through_carry_times(value, carry, times);
            nine_bits(turned.0, turned.1) == turn_nine_bits_times(
                nine_bits(value, carry) as u16,
                times,
            )
        }),
    decreases times,
{
    if times > 0 {
        let once = spec_rotate_left_through_carry_u8(value, carry);
        lemma_rotate_left_through_carry_turns(value, carry);
        assert(nine_bits(once.0, once.1) as u16 == turn_nine_bits(nine_bits(value, carry) as u16));
        lemma_rotations_turn_nine_bits(once.0, once.1, (times - 1) as nat);
    }
}

proof fn lemma_bit_after_set(value: u8, bit_index: u8, other: u8)
    by (bit_vector)
    requires
        bit_index < 8,
        other < 8,
    ensures
        (((value | (1u8 << bit_index)) >> other) & 1 == 1) == (other == bit_index || (value
            >> other) & 1 == 1),
        (((value & !(1u8 << bit_index)) >> other) & 1 == 1) == (other != bit_index && (value
            >> other) & 1 == 1),
{
}

/// Splitting what was joined gives back the two bytes.
pub proof fn lemma_construct_then_deconstruct(lsb: u8, msb: u8)
    ensures
        deconstruct_u16(construct_u16(lsb, msb)) == (lsb, msb),
{
}

/// Joining what was split gives back the 16-bit value.
pub proof fn lemma_deconstruct_then_construct(value: u16)
    ensures
        construct_u16(deconstruct_u16(value).0, deconstruct_u16(value).1) == value,
{
}

/// After a bit is written, that bit reads as written and every other bit
/// reads as before.
pub proof fn lemma_set_bit_then_get_bit(value: u8, bit_index: usize, bit: bool, other: usize)
    requires
        bit_index < 8,
        other < 8,
    ensures
        get_bit_u8(set_bit_u8(value, bit_index, bit), other) == if other == bit_index {
            bit
        } else {
            get_bit_u8(value, other)
        },
{
    let updated = set_bit_u8(value, bit_index, bit);
    lemma_set_bit_u8_is_mask(value, bit_index as u8, bit);
    lemma_bit_after_set(value, bit_index as u8, other as u8);
    lemma_u8_shr_is_div(value, other as u8);
    lemma_u8_shr_is_div(updated, other as u8);
    lemma_lowest_bit_u8(value >> (other as u8));
    lemma_lowest_bit_u8(updated >> (other as u8));
}

/// An addition with no incoming carry is the plain addition, and a
/// subtraction with no incoming carry is the plain subtraction.
pub proof fn lemma_no_carry_in(a: u8, b: u8)
    ensures
        add_carry_u8(a, b, false) == add_u8(a, b),
        sub_carry_u8(a, b, false) == sub_u8(a, b),
{
}

/// Two chained 8-bit additions make a 16-bit addition: the low bytes are
/// added first, the high bytes then take the carry of the low ones, and the
/// last carry is the carry of the 16-bit sum.
pub proof fn lemma_add_carry_chains(a: u16, b: u16)
    ensures
        ({
            let (a_low, a_high) = deconstruct_u16(a);
            let (b_low, b_high) = deconstruct_u16(b);
            let low = add_u8(a_low, b_low);
            let high = add_carry_u8(a_high, b_high, low.2);
            &&& construct_u16(low.0, high.0) == add_u16(a, b).0
            &&& high.2 == add_u16(a, b).2
        }),
{
    let (a_low, a_high) = spec_deconstruct_u16(a);
    let (b_low, b_high) = spec_deconstruct_u16(b);
    let low = spec_add_u8(a_low, b_low);
    let high = spec_add_carry_u8(a_high, b_high, low.2);
    assert(a == a_high * 256 + a_low);
    assert(b == b_high * 256 + b_low);
    assert(a_low + b_low == low.0 + 256 * carry_value(low.2));
    assert(a_high + b_high + carry_value(low.2) == high.0 + 256 * carry_value(high.2));
    assert(a + b == high.0 * 256 + low.0 + 0x1_0000 * carry_value(high.2));
    assert((a + b) % 0x1_0000 == high.0 * 256 + low.0);
}

/// Two chained 8-bit subtractions make a 16-bit subtraction modulo 65536:
/// the high bytes take the borrow of the low ones, and the last borrow
/// tells whether `a` is less than `b`.
pub proof fn lemma_sub_carry_chains(a: u16, b: u16)
    ensures
        ({
            let (a_low, a_high) = deconstruct_u16(a);
            let (b_low, b_high) = deconstruct_u16(b);
            let low = sub_u8(a_low, b_low);
            let high = sub_carry_u8(a_high, b_high, low.2);
            &&& construct_u16(low.0, high.0) == (a - b) % 0x1_0000
            &&& high.2 == (a < b)
        }),
{
    let (a_low, a_high) = spec_deconstruct_u16(a);
    let (b_low, b_high) = spec_deconstruct_u16(b);
    let low = spec_sub_u8(a_low, b_low);
    let high = spec_sub_carry_u8(a_high, b_high, low.2);
    assert(a == a_high * 256 + a_low);
    assert(b == b_high * 256 + b_low);
    assert(a_low - b_low == low.0 - 256 * carry_value(low.2));
    assert(a_high - b_high - carry_value(low.2) == high.0 - 256 * carry_value(high.2));
    assert(a - b == high.0 * 256 + low.0 - 0x1_0000 * carry_value(high.2));
    assert((a - b) % 0x1_0000 == high.0 * 256 + low.0);
}

/// The flags of a signed-byte addition are exactly those of the 8-bit
/// addition of the low byte of `a` and the bit pattern of `b`, whatever the
/// upper byte of `a` or of the result holds.
pub proof fn lemma_add_u16_i8_flags(a: u16, b: i8)
    ensures
        add_u16_i8(a, b).1 == add_u8(deconstruct_u16(a).0, byte_pattern(b)).1,
        add_u16_i8(a, b).2 == add_u8(deconstruct_u16(a).0, byte_pattern(b)).2,
{
}

/// The result of a signed-byte addition is the 16-bit sum of `a` and the
/// sign extension of `b`.
pub proof fn lemma_add_u16_i8_result(a: u16, b: i8)
    ensures
        b >= 0 ==> add_u16_i8(a, b).0 == add_u16(a, b as u16).0,
        b < 0 ==> add_u16_i8(a, b).0 == add_u16(a, (b + 0x1_0000) as u16).0,
{
}

/// A right rotation undoes a left rotation, and a left rotation undoes a
/// right one.
pub proof fn lemma_rotations_are_inverse(value: u8)
    ensures
        rotate_right_get_carry_u8(rotate_left_get_carry_u8(value).0).0 == value,
        rotate_left_get_carry_u8(rotate_right_get_carry_u8(value).0).0 == value,
{
    let left = spec_rotate_left_get_carry_u8(value).0;
    let right = spec_rotate_right_get_carry_u8(value).0;
    if value < 128 {
        assert(left == value * 2);
    } else {
        assert(left == value * 2 - 255);
    }
    if value % 2 == 0 {
        assert(right == value / 2);
    } else {
        assert(right == value / 2 + 128);
    }
}

/// The carry of a rotation is the bit that left the byte: bit 7 for a left
/// rotation, bit 0 for a right rotation, with or without the carry in the
/// ring.
pub proof fn lemma_rotation_carry_is_bit(value: u8, carry: bool)
    ensures
        rotate_left_get_carry_u8(value).1 == get_bit_u8(value, 7),
        rotate_right_get_carry_u8(value).1 == get_bit_u8(value, 0),
        rotate_left_through_carry_u8(value, carry).1 == get_bit_u8(value, 7),
        rotate_right_through_carry_u8(value, carry).1 == get_bit_u8(value, 0),
{
    lemma2_to64();
}

/// The bit that a rotation brings in: a plain rotation brings back the bit
/// that left, a rotation through the carry brings in the incoming carry.
pub proof fn lemma_rotation_entering_bit(value: u8, carry: bool)
    ensures
        get_bit_u8(rotate_left_get_carry_u8(value).0, 0) == get_bit_u8(value, 7),
        get_bit_u8(rotate_right_get_carry_u8(value).0, 7) == get_bit_u8(value, 0),
        get_bit_u8(rotate_left_through_carry_u8(value, carry).0, 0) == carry,
        get_bit_u8(rotate_right_through_carry_u8(value, carry).0, 7) == carry,
{
    lemma2_to64();
}

/// A rotation moves every other bit by one place: up for a left rotation,
/// down for a right rotation, with or without the carry in the ring.
pub proof fn lemma_rotation_moves_bits(value: u8, carry: bool, bit_index: usize)
    requires
        bit_index < 7,
    ensures
        get_bit_u8(rotate_left_get_carry_u8(value).0, (bit_index + 1) as usize) == get_bit_u8(
            value,
            bit_index,
        ),
        get_bit_u8(rotate_left_through_carry_u8(value, carry).0, (bit_index + 1) as usize)
            == get_bit_u8(value, bit_index),
        get_bit_u8(rotate_right_get_carry_u8(value).0, bit_index) == get_bit_u8(
            value,
            (bit_index + 1) as usize,
        ),
        get_bit_u8(rotate_right_through_carry_u8(value, carry).0, bit_index) == get_bit_u8(
            value,
            (bit_index + 1) as usize,
        ),
{
    let low = bit_index as u8;
    let high = (bit_index + 1) as u8;
    let incoming: u8 = if carry { 1 } else { 0 };
    let left = spec_rotate_left_get_carry_u8(value).0;
    let left_through = spec_rotate_left_through_carry_u8(value, carry).0;
    let right = spec_rotate_right_get_carry_u8(value).0;
    let right_through = spec_rotate_right_through_carry_u8(value, carry).0;
    lemma_rotate_left_by_one(value);
    lemma_rotate_right_by_one(value);
    lemma_carry_enters_low(value, incoming);
    lemma_carry_enters_high(value, incoming);
    lemma_bits_move_up(value, incoming, low, high);
    lemma_bits_move_down(value, incoming, low, high);
    lemma_u8_shr_is_div(value, low);
    lemma_u8_shr_is_div(value, high);
    lemma_u8_shr_is_div(left, high);
    lemma_u8_shr_is_div(left_through, high);
    lemma_u8_shr_is_div(right, low);
    lemma_u8_shr_is_div(right_through, low);
    lemma_lowest_bit_u8(value >> low);
    lemma_lowest_bit_u8(value >> high);
    lemma_lowest_bit_u8(left >> high);
    lemma_lowest_bit_u8(left_through >> high);
    lemma_lowest_bit_u8(right >> low);
    lemma_lowest_bit_u8(right_through >> low);
}

proof fn lemma_carry_enters_low(value: u8, incoming: u8)
    by (bit_vector)
    requires
        incoming <= 1,
    ensures
        (value << 1) | incoming == (value * 2) % 256 + incoming,
{
}

proof fn lemma_carry_enters_high(value: u8, incoming: u8)
    by (bit_vector)
    requires
        incoming <= 1,
    ensures
        (value >> 1) | (incoming << 7) == value / 2 + incoming * 128,
{
}

proof fn lemma_bits_move_up(value: u8, incoming: u8, low: u8, high: u8)
    by (bit_vector)
    requires
        low < 7,
        high == low + 1,
        incoming <= 1,
    ensures
        (((value << 1) | (value >> 7)) >> high) & 1 == (value >> low) & 1,
        (((value << 1) | incoming) >> high) & 1 == (value >> low) & 1,
{
}

proof fn lemma_bits_move_down(value: u8, incoming: u8, low: u8, high: u8)
    by (bit_vector)
    requires
        low < 7,
        high == low + 1,
        incoming <= 1,
    ensures
        (((value >> 1) | (value << 7)) >> low) & 1 == (value >> high) & 1,
        (((value >> 1) | (incoming << 7)) >> low) & 1 == (value >> high) & 1,
{
}

/// Rotations through the carry are inverse to each other on the pair of
/// byte and carry.
pub proof fn lemma_rotations_through_carry_are_inverse(value: u8, carry: bool)
    ensures
        ({
            let left = rotate_left_through_carry_u8(value, carry);
            rotate_right_through_carry_u8(left.0, left.1) == (value, carry)
        }),
        ({
            let right = rotate_right_through_carry_u8(value, carry);
            rotate_left_through_carry_u8(right.0, right.1) == (value, carry)
        }),
{
}

/// One left rotation through the carry turns the nine-bit number made of
/// carry and byte left by one place.
pub proof fn lemma_rotate_left_through_carry_turns(value: u8, carry: bool)
    ensures
        ({
            let once = rotate_left_through_carry_u8(value, carry);
            let bits = nine_bits(value, carry);
            nine_bits(once.0, once.1) == (bits * 2) % 512 + bits / 256
        }),
{
}

/// Nine left rotations through the carry, each taking the carry of the one
/// before, bring the byte and the carry back to where they started: the ring
/// holds nine bits, eight of the byte and one of the carry.
pub proof fn lemma_nine_rotations_through_carry(value: u8, carry: bool)
    ensures
        rotate_left_through_carry_times(value, carry, 9) == (value, carry),
{
    let bits = nine_bits(value, carry) as u16;
    let turned = rotate_left_through_carry_times(value, carry, 9);
    lemma_rotations_turn_nine_bits(value, carry, 9);
    assert(turn_nine_bits_times(bits, 9) == bits) by {
        reveal_with_fuel(turn_nine_bits_times, 10);
        lemma_nine_turns(bits);
    }
    assert(nine_bits(turned.0, turned.1) == nine_bits(value, carry));
}

/// Four left rotations through the carry turn the nine-bit number made of
/// carry and byte left by four places. They bring the pair back to where it
/// started only when all nine bits are equal.
pub proof fn lemma_four_rotations_through_carry(value: u8, carry: bool)
    ensures
        ({
            let turned = rotate_left_through_carry_times(value, carry, 4);
            let bits = nine_bits(value, carry);
            nine_bits(turned.0, turned.1) == (bits * 16) % 512 + bits / 32
        }),
        rotate_left_through_carry_times(value, carry, 4) == (value, carry) <==> (value == 0
            && !carry) || (value == 255 && carry),
{
    let bits = nine_bits(value, carry) as u16;
    let turned = rotate_left_through_carry_times(value, carry, 4);
    lemma_rotations_turn_nine_bits(value, carry, 4);
    assert(turn_nine_bits_times(bits, 4) == (bits * 16) % 512 + bits / 32) by {
        reveal_with_fuel(turn_nine_bits_times, 5);
        lemma_four_turns(bits);
    }
    lemma_four_turns_fixed(bits);
    assert(turned == (value, carry) <==> nine_bits(turned.0, turned.1) == nine_bits(value, carry));
}

} // verus!
