//! The CPU register file: seven 8-bit registers, the flag register, and the
//! four 16-bit pairs AF, BC, DE and HL laid over them.

use vstd::prelude::*;
use crate::bits::{mask_if, word, hi_byte, lo_byte, lemma_word_of_bytes};

verus! {

/// The four condition flags. They occupy the high nibble of register F; its
/// low nibble always reads as zero.
#[derive(Copy, Clone, Debug)]
pub struct Flags {
    pub z: bool,
    pub n: bool,
    pub h: bool,
    pub c: bool,
}

impl Default for Flags {
    fn default() -> (r: Flags)
        ensures
            r == Flags::cleared(),
    {
        Flags { z: false, n: false, h: false, c: false }
    }
}

impl Flags {
    /// All four flags reset.
    pub open spec fn cleared() -> Flags {
        Flags { z: false, n: false, h: false, c: false }
    }

    /// The byte that register F reads as.
    pub open spec fn bits(self) -> u8 {
        mask_if(self.z, 0x80) | mask_if(self.n, 0x40) | mask_if(self.h, 0x20) | mask_if(
            self.c,
            0x10,
        )
    }

    /// The flags that a byte written to register F selects.
    pub open spec fn of_bits(value: u8) -> Flags {
        Flags {
            z: value & 0x80 == 0x80,
            n: value & 0x40 == 0x40,
            h: value & 0x20 == 0x20,
            c: value & 0x10 == 0x10,
        }
    }

    pub fn as_u8(&self) -> (r: u8)
        ensures
            r == self.bits(),
    {
        let z: u8 = if self.z { 0x80 } else { 0 };
        let n: u8 = if self.n { 0x40 } else { 0 };
        let h: u8 = if self.h { 0x20 } else { 0 };
        let c: u8 = if self.c { 0x10 } else { 0 };
        z | n | h | c
    }

    pub fn set_from_u8(&mut self, value: u8)
        ensures
            *final(self) == Flags::of_bits(value),
    {
        self.z = value & 0x80 == 0x80;
        self.n = value & 0x40 == 0x40;
        self.h = value & 0x20 == 0x20;
        self.c = value & 0x10 == 0x10;
    }
}

/// Register F keeps the high nibble of what is written to it, and reading it
/// back after decoding changes nothing.
pub proof fn lemma_flag_bits(value: u8, f: Flags)
    ensures
        Flags::of_bits(value).bits() == value & 0xf0,
        Flags::of_bits(f.bits()) == f,
        f.bits() & 0x0f == 0,
{
    assert((mask_if(value & 0x80 == 0x80, 0x80) | mask_if(value & 0x40 == 0x40, 0x40) | mask_if(
        value & 0x20 == 0x20,
        0x20,
    ) | mask_if(value & 0x10 == 0x10, 0x10)) == value & 0xf0) by (bit_vector);
    let (z, n, h, c) = (f.z, f.n, f.h, f.c);
    let b = f.bits();
    assert(b == (mask_if(z, 0x80) | mask_if(n, 0x40) | mask_if(h, 0x20) | mask_if(c, 0x10)));
    assert((b & 0x80 == 0x80) == z && (b & 0x40 == 0x40) == n && (b & 0x20 == 0x20) == h && (b
        & 0x10 == 0x10) == c && b & 0x0f == 0) by (bit_vector)
        requires
            b == (mask_if(z, 0x80) | mask_if(n, 0x40) | mask_if(h, 0x20) | mask_if(c, 0x10)),
    ;
}

#[derive(Copy, Clone, Debug)]
pub struct Registers {
    pub a: u8,
    pub b: u8,
    pub c: u8,
    pub d: u8,
    pub e: u8,
    pub f: Flags,
    pub h: u8,
    pub l: u8,
}

impl Default for Registers {
    fn default() -> (r: Registers)
        ensures
            r == Registers::zeroed(),
    {
        Registers {
            a: 0,
            b: 0,
            c: 0,
            d: 0,
            e: 0,
            f: Flags { z: false, n: false, h: false, c: false },
            h: 0,
            l: 0,
        }
    }
}

impl Registers {
    /// Every register zero and every flag reset.
    pub open spec fn zeroed() -> Registers {
        Registers { a: 0, b: 0, c: 0, d: 0, e: 0, f: Flags::cleared(), h: 0, l: 0 }
    }

    pub open spec fn af(self) -> u16 {
        word(self.a, self.f.bits())
    }

    pub open spec fn bc(self) -> u16 {
        word(self.b, self.c)
    }

    pub open spec fn de(self) -> u16 {
        word(self.d, self.e)
    }

    pub open spec fn hl(self) -> u16 {
        word(self.h, self.l)
    }

    pub open spec fn with_af(self, value: u16) -> Registers {
        Registers { a: hi_byte(value), f: Flags::of_bits(lo_byte(value)), ..self }
    }

    pub open spec fn with_bc(self, value: u16) -> Registers {
        Registers { b: hi_byte(value), c: lo_byte(value), ..self }
    }

    pub open spec fn with_de(self, value: u16) -> Registers {
        Registers { d: hi_byte(value), e: lo_byte(value), ..self }
    }

    pub open spec fn with_hl(self, value: u16) -> Registers {
        Registers { h: hi_byte(value), l: lo_byte(value), ..self }
    }

    /// The 8-bit register that an operand field of an opcode names; field
    /// value 6 names memory, not a register.
    pub open spec fn reg8(self, id: u8) -> u8 {
        match id {
            0 => self.b,
            1 => self.c,
            2 => self.d,
            3 => self.e,
            4 => self.h,
            5 => self.l,
            _ => self.a,
        }
    }

    pub open spec fn with_reg8(self, id: u8, value: u8) -> Registers {
        match id {
            0 => Registers { b: value, ..self },
            1 => Registers { c: value, ..self },
            2 => Registers { d: value, ..self },
            3 => Registers { e: value, ..self },
            4 => Registers { h: value, ..self },
            5 => Registers { l: value, ..self },
            _ => Registers { a: value, ..self },
        }
    }

    /// The register pair that a 2-bit field names in the stack instructions:
    /// BC, DE, HL, AF.
    pub open spec fn reg16(self, id: u8) -> u16 {
        match id {
            0 => self.bc(),
            1 => self.de(),
            2 => self.hl(),
            _ => self.af(),
        }
    }

    pub open spec fn with_reg16(self, id: u8, value: u16) -> Registers {
        match id {
            0 => self.with_bc(value),
            1 => self.with_de(value),
            2 => self.with_hl(value),
            _ => self.with_af(value),
        }
    }

    /// The branch condition that a 2-bit field names: NZ, Z, NC, C.
    pub open spec fn condition(self, id: u8) -> bool {
        match id {
            0 => !self.f.z,
            1 => self.f.z,
            2 => !self.f.c,
            _ => self.f.c,
        }
    }

    pub fn new() -> (r: Registers)
        ensures
            r == Registers::zeroed(),
    {
        Registers {
            a: 0,
            b: 0,
            c: 0,
            d: 0,
            e: 0,
            f: Flags { z: false, n: false, h: false, c: false },
            h: 0,
            l: 0,
        }
    }

    pub fn get_af(&self) -> (r: u16)
        ensures
            r == self.af(),
    {
        (self.a as u16) << 8 | (self.f.as_u8() as u16)
    }

    pub fn set_af(&mut self, value: u16)
        ensures
            *final(self) == old(self).with_af(value),
    {
        self.a = ((value & 0xff00) >> 8) as u8;
        self.f.set_from_u8(value as u8);
    }

    pub fn set_bc(&mut self, value: u16)
        ensures
            *final(self) == old(self).with_bc(value),
    {
        self.b = ((value & 0xff00) >> 8) as u8;
        self.c = value as u8;
    }

    pub fn get_bc(&self) -> (r: u16)
        ensures
            r == self.bc(),
    {
        (self.b as u16) << 8 | (self.c as u16)
    }

    pub fn set_de(&mut self, value: u16)
        ensures
            *final(self) == old(self).with_de(value),
    {
        self.d = ((value & 0xff00) >> 8) as u8;
        self.e = value as u8;
    }

    pub fn get_de(&self) -> (r: u16)
        ensures
            r == self.de(),
    {
        (self.d as u16) << 8 | (self.e as u16)
    }

    pub fn set_hl(&mut self, value: u16)
        ensures
            *final(self) == old(self).with_hl(value),
    {
        self.h = ((value & 0xff00) >> 8) as u8;
        self.l = value as u8;
    }

    pub fn get_hl(&self) -> (r: u16)
        ensures
            r == self.hl(),
    {
        (self.h as u16) << 8 | (self.l as u16)
    }

    pub fn get_reg8_by_id(&self, id: u8) -> (r: u8)
        requires
            id <= 7,
            id != 6,
        ensures
            r == self.reg8(id),
    {
        match id {
            0 => self.b,
            1 => self.c,
            2 => self.d,
            3 => self.e,
            4 => self.h,
            5 => self.l,
            _ => self.a,
        }
    }

    pub fn set_reg8_by_id(&mut self, id: u8, value: u8)
        requires
            id <= 7,
            id != 6,
        ensures
            *final(self) == old(self).with_reg8(id, value),
    {
        match id {
            0 => self.b = value,
            1 => self.c = value,
            2 => self.d = value,
            3 => self.e = value,
            4 => self.h = value,
            5 => self.l = value,
            _ => self.a = value,
        }
    }

    pub fn set_reg16_by_id(&mut self, id: u8, value: u16)
        requires
            id <= 3,
        ensures
            *final(self) == old(self).with_reg16(id, value),
    {
        match id {
            0 => self.set_bc(value),
            1 => self.set_de(value),
            2 => self.set_hl(value),
            _ => self.set_af(value),
        }
    }

    pub fn get_reg16_by_id(&self, id: u8) -> (r: u16)
        requires
            id <= 3,
        ensures
            r == self.reg16(id),
    {
        match id {
            0 => self.get_bc(),
            1 => self.get_de(),
            2 => self.get_hl(),
            _ => self.get_af(),
        }
    }

    pub fn get_condition_by_id(&self, id: u8) -> (r: bool)
        requires
            id <= 3,
        ensures
            r == self.condition(id),
    {
        match id {
            0 => !self.f.z,
            1 => self.f.z,
            2 => !self.f.c,
            _ => self.f.c,
        }
    }
}

/// A value stored in BC, DE or HL is read back unchanged, and storing leaves
/// every register outside the pair as it was.
pub proof fn lemma_pair_round_trip(regs: Registers, value: u16)
    ensures
        regs.with_bc(value).bc() == value,
        regs.with_de(value).de() == value,
        regs.with_hl(value).hl() == value,
        forall|id: u8| id < 3 ==> (#[trigger] regs.with_reg16(id, value)).reg16(id) == value,
{
    lemma_word_of_bytes(value);
}

/// A value stored in AF is read back with its low nibble cleared: register F
/// holds flags in its high nibble only.
pub proof fn lemma_af_round_trip(regs: Registers, value: u16)
    ensures
        regs.with_af(value).af() == value & 0xfff0,
        regs.with_reg16(3, value).reg16(3) == value & 0xfff0,
{
    let lo = lo_byte(value);
    let hi = hi_byte(value);
    lemma_flag_bits(lo, regs.f);
    assert(Flags::of_bits(lo).bits() == lo & 0xf0);
    assert((hi as u16) << 8 | ((lo & 0xf0) as u16) == value & 0xfff0) by (bit_vector)
        requires
            hi == ((value & 0xff00) >> 8) as u8,
            lo == value as u8,
    ;
}

} // verus!
