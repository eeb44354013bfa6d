//! Facts about bytes and words that the register-level code relies on.

use vstd::prelude::*;

verus! {

/// `m` when `b` holds, zero otherwise: one flag placed at its bit.
pub open spec fn mask_if(b: bool, m: u8) -> u8 {
    if b {
        m
    } else {
        0
    }
}

/// The 16-bit word with `hi` as its upper and `lo` as its lower byte.
pub open spec fn word(hi: u8, lo: u8) -> u16 {
    (hi as u16) << 8 | (lo as u16)
}

/// Upper byte of a word.
pub open spec fn hi_byte(v: u16) -> u8 {
    ((v & 0xff00) >> 8) as u8
}

/// Lower byte of a word.
pub open spec fn lo_byte(v: u16) -> u8 {
    v as u8
}

/// Splitting a word into bytes and joining them again gives the word back.
pub proof fn lemma_word_of_bytes(v: u16)
    ensures
        word(hi_byte(v), lo_byte(v)) == v,
{
    assert(((((v & 0xff00) >> 8) as u8) as u16) << 8 | ((v as u8) as u16) == v) by (bit_vector);
}

/// The bytes of a joined word are the bytes it was joined from.
pub proof fn lemma_bytes_of_word(hi: u8, lo: u8)
    ensures
        hi_byte(word(hi, lo)) == hi,
        lo_byte(word(hi, lo)) == lo,
{
    assert(((((hi as u16) << 8 | (lo as u16)) & 0xff00) >> 8) as u8 == hi
        && ((hi as u16) << 8 | (lo as u16)) as u8 == lo) by (bit_vector);
}

/// Masked fields of a byte stay inside the mask.
pub proof fn lemma_field_bounds(v: u8)
    ensures
        v & 0x01 <= 0x01,
        v & 0x03 <= 0x03,
        v & 0x07 <= 0x07,
        v & 0x0f <= 0x0f,
        v & 0x1f <= 0x1f,
        v & 0x3f <= 0x3f,
        v & 0x7f <= 0x7f,
        (v & 0x18) >> 3 <= 3,
        (v & 0x30) >> 4 <= 3,
        (v & 0x38) >> 3 <= 7,
        (v & 0x60) >> 5 <= 3,
        (v & 0x70) >> 4 <= 7,
        (v & 0xc0) >> 6 <= 3,
        (v & 0xf0) >> 4 <= 15,
        v >> 4 <= 15,
        v & 0x38 <= 0x38,
{
    assert(v & 0x01 <= 0x01 && v & 0x03 <= 0x03 && v & 0x07 <= 0x07 && v & 0x0f <= 0x0f
        && v & 0x1f <= 0x1f && v & 0x3f <= 0x3f && v & 0x7f <= 0x7f && (v & 0x18) >> 3 <= 3
        && (v & 0x30) >> 4 <= 3 && (v & 0x38) >> 3 <= 7 && (v & 0x60) >> 5 <= 3
        && (v & 0x70) >> 4 <= 7 && (v & 0xc0) >> 6 <= 3 && (v & 0xf0) >> 4 <= 15
        && v >> 4 <= 15 && v & 0x38 <= 0x38) by (bit_vector);
}

} // verus!
