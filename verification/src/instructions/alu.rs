//! The arithmetic of the CPU: results and flags of additions, subtractions
//! and rotations.

use vstd::prelude::*;
use crate::registers::Flags;

verus! {

/// The low nibble and the low bit of a byte, and the low nibble and byte of
/// a word, are remainders.
pub proof fn lemma_low_bits(v: u8, w: u16)
    ensures
        v & 0x0f == v % 16,
        v & 0x01 == v % 2,
        w & 0x000f == w % 16,
        w & 0x00ff == w % 256,
        w & 0x0fff == w % 4096,
{
    assert(v & 0x0f == v % 16 && v & 0x01 == v % 2 && w & 0x000f == w % 16 && w & 0x00ff == w % 256
        && w & 0x0fff == w % 4096) by (bit_vector);
}

/// The sum of two bytes and a carry: the result is the sum modulo 256; Z is
/// set on a zero result, N is reset, H is set on a carry out of the low
/// nibble and C on a carry out of the byte, the carry-in counted in both.
pub open spec fn sum_8bit(value1: u8, value2: u8, carry_in: u8) -> (u8, Flags) {
    let result = ((value1 + value2 + carry_in) % 256) as u8;
    (
        result,
        Flags {
            z: result == 0,
            n: false,
            h: value1 % 16 + value2 % 16 + carry_in % 2 > 15,
            c: value1 + value2 + carry_in > 255,
        },
    )
}

/// The difference of two bytes and a borrow: the result is the difference
/// modulo 256; Z is set on a zero result, N is set, H is set on a borrow
/// into the low nibble and C on a borrow into the byte, the carry-in
/// counted in both.
pub open spec fn difference_8bit(value1: u8, value2: u8, carry_in: u8) -> (u8, Flags) {
    let result = ((value1 - value2 - carry_in) % 256) as u8;
    (
        result,
        Flags {
            z: result == 0,
            n: true,
            h: value2 % 16 + carry_in > value1 % 16,
            c: value2 + carry_in > value1,
        },
    )
}

/// The sum of the stack pointer and a sign-extended offset: the result is
/// the sum modulo 65536; Z and N are reset, H and C are the carries out of
/// bit 3 and bit 7 of the unsigned sum of the low bytes.
pub open spec fn sum_16bit(value1: u16, value2: u16) -> (u16, Flags) {
    (
        ((value1 + value2) % 65536) as u16,
        Flags {
            z: false,
            n: false,
            h: value1 % 16 + value2 % 16 > 15,
            c: value1 % 256 + value2 % 256 > 255,
        },
    )
}

/// A rotation to the left through `shift_in`: bit 7 leaves into C, and
/// `shift_in` enters at bit 0. Z is set on a zero result.
pub open spec fn rotated_left(value: u8, shift_in: bool) -> (u8, Flags) {
    let result = (value << 1) | (if shift_in {
        0x01u8
    } else {
        0x00u8
    });
    (result, Flags { z: result == 0, n: false, h: false, c: value & 0x80 == 0x80 })
}

/// A rotation to the right through `shift_in`: bit 0 leaves into C, and
/// `shift_in` enters at bit 7. Z is set on a zero result.
pub open spec fn rotated_right(value: u8, shift_in: bool) -> (u8, Flags) {
    let result = (value >> 1) | (if shift_in {
        0x80u8
    } else {
        0x00u8
    });
    (result, Flags { z: result == 0, n: false, h: false, c: value & 0x01 == 0x01 })
}

pub fn add_8bit(value1: u8, value2: u8, carry_in: u8) -> (r: (u8, Flags))
    ensures
        r == sum_8bit(value1, value2, carry_in),
{
    proof {
        lemma_low_bits(value1, 0);
        lemma_low_bits(value2, 0);
        lemma_low_bits(carry_in, 0);
    }
    let result16 = value1 as u16 + value2 as u16 + carry_in as u16;
    let result = (result16 % 256) as u8;
    let result4 = (value1 & 0x0f) + (value2 & 0x0f) + (carry_in & 0x01);
    (result, Flags { z: result == 0, n: false, h: result4 > 0x0f, c: result16 > 0xff })
}

pub fn sub_8bit(value1: u8, value2: u8, carry_in: u8) -> (r: (u8, Flags))
    requires
        carry_in <= 1,
    ensures
        r == difference_8bit(value1, value2, carry_in),
{
    proof {
        lemma_low_bits(value1, 0);
        lemma_low_bits(value2, 0);
    }
    let result = value1.wrapping_sub(value2).wrapping_sub(carry_in);
    (
        result,
        Flags {
            z: result == 0,
            n: true,
            h: (value2 & 0x0F) + carry_in > (value1 & 0xF),
            c: (value2 as u16) + (carry_in as u16) > value1 as u16,
        },
    )
}

pub fn add_16bit(value1: u16, value2: u16) -> (r: (u16, Flags))
    ensures
        r == sum_16bit(value1, value2),
{
    proof {
        lemma_low_bits(0, value1);
        lemma_low_bits(0, value2);
    }
    let result = value1.wrapping_add(value2);
    (
        result,
        Flags {
            z: false,
            n: false,
            h: (value1 & 0x000f) + (value2 & 0x000f) > 0x000f,
            c: (value1 & 0x00ff) + (value2 & 0x00ff) > 0x00ff,
        },
    )
}

pub fn rotate_left(value: u8, shift_in: bool) -> (r: (u8, Flags))
    ensures
        r == rotated_left(value, shift_in),
{
    let carry: u8 = if shift_in { 0x01 } else { 0x00 };
    let result = (value << 1) | carry;
    (result, Flags { z: result == 0, n: false, h: false, c: value & 0x80 == 0x80 })
}

pub fn rotate_right(value: u8, shift_in: bool) -> (r: (u8, Flags))
    ensures
        r == rotated_right(value, shift_in),
{
    let carry: u8 = if shift_in { 0x80 } else { 0x00 };
    let result = (value >> 1) | carry;
    (result, Flags { z: result == 0, n: false, h: false, c: value & 0x01 == 0x01 })
}

/// A rotation neither gains nor loses a bit: rotating left through the bit
/// that leaves on the right, or the other way, gives the value back.
pub proof fn lemma_rotations_invert(value: u8, shift_in: bool)
    ensures
        rotated_right(rotated_left(value, shift_in).0, rotated_left(value, shift_in).1.c).0
            == value,
        rotated_left(rotated_right(value, shift_in).0, rotated_right(value, shift_in).1.c).0
            == value,
{
    let left_in: u8 = if shift_in { 0x01 } else { 0x00 };
    let right_in: u8 = if shift_in { 0x80 } else { 0x00 };
    let back_right: u8 = if value & 0x80 == 0x80 { 0x80 } else { 0x00 };
    let back_left: u8 = if value & 0x01 == 0x01 { 0x01 } else { 0x00 };
    assert((((value << 1) | left_in) >> 1) | back_right == value && (((value >> 1) | right_in)
        << 1) | back_left == value) by (bit_vector)
        requires
            left_in == 0x01 || left_in == 0x00,
            right_in == 0x80 || right_in == 0x00,
            back_right == (if value & 0x80 == 0x80 { 0x80u8 } else { 0x00u8 }),
            back_left == (if value & 0x01 == 0x01 { 0x01u8 } else { 0x00u8 }),
    ;
}

} // verus!
