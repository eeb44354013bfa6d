//! Arithmetic and logic on the accumulator, increments and decrements, and
//! 16-bit additions.

use vstd::prelude::*;
use crate::bits::lemma_field_bounds;
use crate::cpu::{CPU, CpuState, next16, prev16};
use crate::instructions::alu::{add_8bit, sub_8bit, add_16bit, sum_8bit, difference_8bit, sum_16bit,
    lemma_low_bits};
use crate::instructions::load::{dest_field, source_field, pair_field, sign_extended, sign_extend};
use crate::registers::{Flags, Registers};
use crate::cycle::reads_operands;

verus! {

/// The sum of HL and a 16-bit register: the result is the sum modulo
/// 65536; Z is kept, N is reset, H is set on a carry out of bit 11 and C on
/// a carry out of bit 15.
pub open spec fn sum_hl(hl: u16, value: u16, z: bool) -> (u16, Flags) {
    (
        ((hl + value) % 65536) as u16,
        Flags { z, n: false, h: hl % 4096 + value % 4096 > 4095, c: hl + value > 65535 },
    )
}

/// The accumulator and flags after the decimal adjustment. After an
/// addition, 0x60 is added if C is set or A is above 0x99, which sets C,
/// and then 0x06 if H is set or the low nibble is above 9. After a
/// subtraction, 0x60 is subtracted if C is set and 0x06 if H is set. Z
/// follows the result, H is reset, N is kept.
pub open spec fn decimal_adjusted(a: u8, f: Flags) -> (u8, Flags) {
    if !f.n {
        let high = f.c || a > 0x99;
        let a1 = if high {
            ((a + 0x60) % 256) as u8
        } else {
            a
        };
        let a2 = if f.h || a1 % 16 > 9 {
            ((a1 + 0x06) % 256) as u8
        } else {
            a1
        };
        (a2, Flags { z: a2 == 0, n: f.n, h: false, c: high })
    } else {
        let a1 = if f.c {
            ((a - 0x60) % 256) as u8
        } else {
            a
        };
        let a2 = if f.h {
            ((a1 - 0x06) % 256) as u8
        } else {
            a1
        };
        (a2, Flags { z: a2 == 0, n: f.n, h: false, c: f.c })
    }
}

/// The flags of a logic operation with result `a`; AND sets H, OR and XOR
/// reset it.
pub open spec fn logic_flags(a: u8, h: bool) -> Flags {
    Flags { z: a == 0, n: false, h, c: false }
}

/// The carry flag as the carry into an addition or subtraction.
pub open spec fn carry_of(f: Flags) -> u8 {
    if f.c {
        1
    } else {
        0
    }
}

/// The number of cycles of an instruction with an 8-bit operand: one more
/// when the operand is (HL).
pub open spec fn operand_cycles(id: u8) -> u8 {
    if id == 6 {
        2
    } else {
        1
    }
}

impl CpuState {
    /// The state with the accumulator and the flags replaced.
    pub open spec fn accumulated(self, result: (u8, Flags)) -> CpuState {
        CpuState { registers: Registers { a: result.0, f: result.1, ..self.registers }, ..self }
    }

    /// The state with the flags replaced.
    pub open spec fn flagged(self, flags: Flags) -> CpuState {
        CpuState { registers: Registers { f: flags, ..self.registers }, ..self }
    }

    /// ADD A,r.
    #[verifier::opaque]
    pub open spec fn add(self) -> CpuState {
        if self.cycles == 0 {
            let id = source_field(self.opcode1);
            self.accumulated(sum_8bit(self.registers.a, self.reg8(id), 0)).taking(
                operand_cycles(id),
            )
        } else {
            self
        }
    }

    /// ADC A,r.
    #[verifier::opaque]
    pub open spec fn adc(self) -> CpuState {
        if self.cycles == 0 {
            let id = source_field(self.opcode1);
            self.accumulated(
                sum_8bit(self.registers.a, self.reg8(id), carry_of(self.registers.f)),
            ).taking(operand_cycles(id))
        } else {
            self
        }
    }

    /// SUB r.
    #[verifier::opaque]
    pub open spec fn sub(self) -> CpuState {
        if self.cycles == 0 {
            let id = source_field(self.opcode1);
            self.accumulated(difference_8bit(self.registers.a, self.reg8(id), 0)).taking(
                operand_cycles(id),
            )
        } else {
            self
        }
    }

    /// SBC A,r.
    #[verifier::opaque]
    pub open spec fn sbc(self) -> CpuState {
        if self.cycles == 0 {
            let id = source_field(self.opcode1);
            self.accumulated(
                difference_8bit(self.registers.a, self.reg8(id), carry_of(self.registers.f)),
            ).taking(operand_cycles(id))
        } else {
            self
        }
    }

    /// ADD A,d8: two cycles.
    #[verifier::opaque]
    pub open spec fn add_d8(self) -> CpuState {
        if self.cycles == 0 {
            self.with_fetch().accumulated(sum_8bit(self.registers.a, self.fetched(), 0)).taking(2)
        } else {
            self
        }
    }

    /// ADC A,d8: two cycles.
    #[verifier::opaque]
    pub open spec fn adc_d8(self) -> CpuState {
        if self.cycles == 0 {
            self.with_fetch().accumulated(
                sum_8bit(self.registers.a, self.fetched(), carry_of(self.registers.f)),
            ).taking(2)
        } else {
            self
        }
    }

    /// SUB d8: two cycles.
    #[verifier::opaque]
    pub open spec fn sub_d8(self) -> CpuState {
        if self.cycles == 0 {
            self.with_fetch().accumulated(
                difference_8bit(self.registers.a, self.fetched(), 0),
            ).taking(2)
        } else {
            self
        }
    }

    /// SBC A,d8: two cycles.
    #[verifier::opaque]
    pub open spec fn sbc_d8(self) -> CpuState {
        if self.cycles == 0 {
            self.with_fetch().accumulated(
                difference_8bit(self.registers.a, self.fetched(), carry_of(self.registers.f)),
            ).taking(2)
        } else {
            self
        }
    }

    /// CP r: the flags of a subtraction; the accumulator is kept.
    #[verifier::opaque]
    pub open spec fn cp_reg(self) -> CpuState {
        if self.cycles == 0 {
            let id = source_field(self.opcode1);
            self.flagged(difference_8bit(self.registers.a, self.reg8(id), 0).1).taking(
                operand_cycles(id),
            )
        } else {
            self
        }
    }

    /// CP d8: two cycles.
    #[verifier::opaque]
    pub open spec fn cp_d8(self) -> CpuState {
        if self.cycles == 0 {
            self.with_fetch().flagged(
                difference_8bit(self.registers.a, self.fetched(), 0).1,
            ).taking(2)
        } else {
            self
        }
    }

    /// ADD HL,rr: two cycles.
    #[verifier::opaque]
    pub open spec fn add_hl_reg16(self) -> CpuState {
        if self.cycles == 0 {
            let (result, flags) = sum_hl(
                self.registers.hl(),
                self.reg16(pair_field(self.opcode1)),
                self.registers.f.z,
            );
            CpuState {
                registers: Registers { f: flags, ..self.registers.with_hl(result) },
                cycles: 2,
                ..self
            }
        } else {
            self
        }
    }

    /// ADD SP,r8: four cycles; SP and the flags are set in the second.
    #[verifier::opaque]
    pub open spec fn add_sp_r8(self) -> CpuState {
        match self.cycles {
            0 => self.with_operand().taking(4),
            3 => {
                let (result, flags) = sum_16bit(self.sp, sign_extended(self.mem_read[0]));
                CpuState { sp: result, ..self.flagged(flags) }
            },
            _ => self,
        }
    }

    /// AND r.
    #[verifier::opaque]
    pub open spec fn and_reg(self) -> CpuState {
        if self.cycles == 0 {
            let id = source_field(self.opcode1);
            let a = self.registers.a & self.reg8(id);
            self.accumulated((a, logic_flags(a, true))).taking(operand_cycles(id))
        } else {
            self
        }
    }

    /// AND d8: two cycles.
    #[verifier::opaque]
    pub open spec fn and_d8(self) -> CpuState {
        if self.cycles == 0 {
            let a = self.registers.a & self.fetched();
            self.with_fetch().accumulated((a, logic_flags(a, true))).taking(2)
        } else {
            self
        }
    }

    /// OR r.
    #[verifier::opaque]
    pub open spec fn or_reg(self) -> CpuState {
        if self.cycles == 0 {
            let id = source_field(self.opcode1);
            let a = self.registers.a | self.reg8(id);
            self.accumulated((a, logic_flags(a, false))).taking(operand_cycles(id))
        } else {
            self
        }
    }

    /// OR d8: two cycles.
    #[verifier::opaque]
    pub open spec fn or_d8(self) -> CpuState {
        if self.cycles == 0 {
            let a = self.registers.a | self.fetched();
            self.with_fetch().accumulated((a, logic_flags(a, false))).taking(2)
        } else {
            self
        }
    }

    /// XOR r.
    #[verifier::opaque]
    pub open spec fn xor_reg(self) -> CpuState {
        if self.cycles == 0 {
            let id = source_field(self.opcode1);
            let a = self.registers.a ^ self.reg8(id);
            self.accumulated((a, logic_flags(a, false))).taking(operand_cycles(id))
        } else {
            self
        }
    }

    /// XOR d8: two cycles.
    #[verifier::opaque]
    pub open spec fn xor_d8(self) -> CpuState {
        if self.cycles == 0 {
            let a = self.registers.a ^ self.fetched();
            self.with_fetch().accumulated((a, logic_flags(a, false))).taking(2)
        } else {
            self
        }
    }

    /// INC (HL): three cycles; memory is read in the first and written in
    /// the second. C is kept.
    #[verifier::opaque]
    pub open spec fn inc_hl(self) -> CpuState {
        match self.cycles {
            0 => self.with_scratch(self.mmu.read_value(self.registers.hl() as usize)).taking(3),
            2 => {
                let (result, flags) = sum_8bit(self.mem_read[0], 1, 0);
                CpuState {
                    mmu: self.mmu.with_write(self.registers.hl() as usize, result),
                    ..self.flagged(Flags { c: self.registers.f.c, ..flags })
                }
            },
            _ => self,
        }
    }

    /// INC r: one cycle. C is kept.
    #[verifier::opaque]
    pub open spec fn inc_reg8(self) -> CpuState {
        if self.cycles == 0 {
            let id = dest_field(self.opcode1);
            let (result, flags) = sum_8bit(self.reg8(id), 1, 0);
            self.with_reg8(id, result).flagged(Flags { c: self.registers.f.c, ..flags }).taking(1)
        } else {
            self
        }
    }

    /// DEC (HL): three cycles. C is kept.
    #[verifier::opaque]
    pub open spec fn dec_hl(self) -> CpuState {
        match self.cycles {
            0 => self.with_scratch(self.mmu.read_value(self.registers.hl() as usize)).taking(3),
            2 => {
                let (result, flags) = difference_8bit(self.mem_read[0], 1, 0);
                CpuState {
                    mmu: self.mmu.with_write(self.registers.hl() as usize, result),
                    ..self.flagged(Flags { c: self.registers.f.c, ..flags })
                }
            },
            _ => self,
        }
    }

    /// DEC r: one cycle. C is kept.
    #[verifier::opaque]
    pub open spec fn dec_reg8(self) -> CpuState {
        if self.cycles == 0 {
            let id = dest_field(self.opcode1);
            let (result, flags) = difference_8bit(self.reg8(id), 1, 0);
            self.with_reg8(id, result).flagged(Flags { c: self.registers.f.c, ..flags }).taking(1)
        } else {
            self
        }
    }

    /// INC rr: two cycles; no flag changes.
    #[verifier::opaque]
    pub open spec fn inc_reg16(self) -> CpuState {
        if self.cycles == 0 {
            let id = pair_field(self.opcode1);
            self.with_reg16(id, next16(self.reg16(id))).taking(2)
        } else {
            self
        }
    }

    /// DEC rr: two cycles; no flag changes.
    #[verifier::opaque]
    pub open spec fn dec_reg16(self) -> CpuState {
        if self.cycles == 0 {
            let id = pair_field(self.opcode1);
            self.with_reg16(id, prev16(self.reg16(id))).taking(2)
        } else {
            self
        }
    }

    /// DAA: one cycle.
    #[verifier::opaque]
    pub open spec fn daa(self) -> CpuState {
        self.accumulated(decimal_adjusted(self.registers.a, self.registers.f)).taking(1)
    }

    /// CPL: one cycle; A is complemented, N and H are set.
    #[verifier::opaque]
    pub open spec fn cpl(self) -> CpuState {
        self.accumulated(
            (!self.registers.a, Flags { n: true, h: true, ..self.registers.f }),
        ).taking(1)
    }

    /// SCF: one cycle; C is set, N and H are reset.
    #[verifier::opaque]
    pub open spec fn scf(self) -> CpuState {
        self.flagged(Flags { c: true, h: false, n: false, ..self.registers.f }).taking(1)
    }

    /// CCF: one cycle; C is complemented, N and H are reset.
    #[verifier::opaque]
    pub open spec fn ccf(self) -> CpuState {
        self.flagged(
            Flags { c: !self.registers.f.c, h: false, n: false, ..self.registers.f },
        ).taking(1)
    }
}

/// Adjusts the accumulator to packed decimal after an addition or a
/// subtraction of packed decimal numbers.
pub fn decimal_adjust(a: u8, f: Flags) -> (r: (u8, Flags))
    ensures
        r == decimal_adjusted(a, f),
{
    if !f.n {
        let high = f.c || a > 0x99;
        let a1 = if high {
            a.wrapping_add(0x60)
        } else {
            a
        };
        assert(a1 == (if high {
            ((a + 0x60) % 256) as u8
        } else {
            a
        }));
        proof {
            lemma_low_bits(a1, 0);
        }
        let low = f.h || (a1 & 0x0f) > 0x09;
        let a2 = if low {
            a1.wrapping_add(0x6)
        } else {
            a1
        };
        assert(a2 == (if low {
            ((a1 + 0x06) % 256) as u8
        } else {
            a1
        }));
        (a2, Flags { z: a2 == 0, n: f.n, h: false, c: high })
    } else {
        let a1 = if f.c {
            a.wrapping_sub(0x60)
        } else {
            a
        };
        assert(a1 == (if f.c {
            ((a - 0x60) % 256) as u8
        } else {
            a
        }));
        let a2 = if f.h {
            a1.wrapping_sub(0x6)
        } else {
            a1
        };
        assert(a2 == (if f.h {
            ((a1 - 0x06) % 256) as u8
        } else {
            a1
        }));
        (a2, Flags { z: a2 == 0, n: f.n, h: false, c: f.c })
    }
}

impl CPU {
    /// The carry flag as a number.
    fn carry(&self) -> (r: u8)
        ensures
            r == carry_of(self.registers.f),
    {
        if self.registers.f.c {
            1
        } else {
            0
        }
    }

    /// Reads the operand that bits 2 to 0 of the opcode name.
    fn source_operand(&self) -> (r: (u8, u8))
        requires
            self.mmu.wf(),
        ensures
            r.0 == source_field(self.opcode1),
            r.1 == self@.reg8(r.0),
            r.0 <= 7,
    {
        proof {
            lemma_field_bounds(self.opcode1);
        }
        let reg_id = self.opcode1 & 0x07;
        (reg_id, self.read_reg8(reg_id))
    }

    pub fn add(&mut self)
        requires
            old(self).mmu.wf(),
        ensures
            final(self)@ == old(self)@.add(),
            final(self).mmu.wf(),
            !reads_operands(old(self).opcode1) && !old(self).pending_interrupt
                ==> final(self)@.ready_to_go_on(),
    {
        reveal(CpuState::ready_to_go_on);
        reveal(CpuState::add);
        if self.cycles == 0 {
            let (reg_id, value) = self.source_operand();
            let (result, flags) = add_8bit(self.registers.a, value, 0);
            self.registers.f = flags;
            self.registers.a = result;
            self.cycles = if reg_id == 6 {
                2
            } else {
                1
            };
        }
    }

    pub fn adc(&mut self)
        requires
            old(self).mmu.wf(),
        ensures
            final(self)@ == old(self)@.adc(),
            final(self).mmu.wf(),
            !reads_operands(old(self).opcode1) && !old(self).pending_interrupt
                ==> final(self)@.ready_to_go_on(),
    {
        reveal(CpuState::ready_to_go_on);
        reveal(CpuState::adc);
        if self.cycles == 0 {
            let (reg_id, value) = self.source_operand();
            let (result, flags) = add_8bit(self.registers.a, value, self.carry());
            self.registers.f = flags;
            self.registers.a = result;
            self.cycles = if reg_id == 6 {
                2
            } else {
                1
            };
        }
    }

    pub fn sub(&mut self)
        requires
            old(self).mmu.wf(),
        ensures
            final(self)@ == old(self)@.sub(),
            final(self).mmu.wf(),
            !reads_operands(old(self).opcode1) && !old(self).pending_interrupt
                ==> final(self)@.ready_to_go_on(),
    {
        reveal(CpuState::ready_to_go_on);
        reveal(CpuState::sub);
        if self.cycles == 0 {
            let (reg_id, value) = self.source_operand();
            let (result, flags) = sub_8bit(self.registers.a, value, 0);
            self.registers.f = flags;
            self.registers.a = result;
            self.cycles = if reg_id == 6 {
                2
            } else {
                1
            };
        }
    }

    pub fn sbc(&mut self)
        requires
            old(self).mmu.wf(),
        ensures
            final(self)@ == old(self)@.sbc(),
            final(self).mmu.wf(),
            !reads_operands(old(self).opcode1) && !old(self).pending_interrupt
                ==> final(self)@.ready_to_go_on(),
    {
        reveal(CpuState::ready_to_go_on);
        reveal(CpuState::sbc);
        if self.cycles == 0 {
            let (reg_id, value) = self.source_operand();
            let (result, flags) = sub_8bit(self.registers.a, value, self.carry());
            self.registers.f = flags;
            self.registers.a = result;
            self.cycles = if reg_id == 6 {
                2
            } else {
                1
            };
        }
    }

    pub fn add_d8(&mut self)
        requires
            old(self).mmu.wf(),
        ensures
            final(self)@ == old(self)@.add_d8(),
            final(self).mmu.wf(),
            !reads_operands(old(self).opcode1) && !old(self).pending_interrupt
                ==> final(self)@.ready_to_go_on(),
    {
        reveal(CpuState::ready_to_go_on);
        reveal(CpuState::add_d8);
        if self.cycles == 0 {
            let value = self.next_byte();
            let (result, flags) = add_8bit(self.registers.a, value, 0);
            self.registers.f = flags;
            self.registers.a = result;
            self.cycles = 2;
        }
    }

    pub fn adc_d8(&mut self)
        requires
            old(self).mmu.wf(),
        ensures
            final(self)@ == old(self)@.adc_d8(),
            final(self).mmu.wf(),
            !reads_operands(old(self).opcode1) && !old(self).pending_interrupt
                ==> final(self)@.ready_to_go_on(),
    {
        reveal(CpuState::ready_to_go_on);
        reveal(CpuState::adc_d8);
        if self.cycles == 0 {
            let value = self.next_byte();
            let (result, flags) = add_8bit(self.registers.a, value, self.carry());
            self.registers.f = flags;
            self.registers.a = result;
            self.cycles = 2;
        }
    }

    pub fn sub_d8(&mut self)
        requires
            old(self).mmu.wf(),
        ensures
            final(self)@ == old(self)@.sub_d8(),
            final(self).mmu.wf(),
            !reads_operands(old(self).opcode1) && !old(self).pending_interrupt
                ==> final(self)@.ready_to_go_on(),
    {
        reveal(CpuState::ready_to_go_on);
        reveal(CpuState::sub_d8);
        if self.cycles == 0 {
            let value = self.next_byte();
            let (result, flags) = sub_8bit(self.registers.a, value, 0);
            self.registers.f = flags;
            self.registers.a = result;
            self.cycles = 2;
        }
    }

    pub fn sbc_d8(&mut self)
        requires
            old(self).mmu.wf(),
        ensures
            final(self)@ == old(self)@.sbc_d8(),
            final(self).mmu.wf(),
            !reads_operands(old(self).opcode1) && !old(self).pending_interrupt
                ==> final(self)@.ready_to_go_on(),
    {
        reveal(CpuState::ready_to_go_on);
        reveal(CpuState::sbc_d8);
        if self.cycles == 0 {
            let value = self.next_byte();
            let (result, flags) = sub_8bit(self.registers.a, value, self.carry());
            self.registers.f = flags;
            self.registers.a = result;
            self.cycles = 2;
        }
    }

    pub fn cp_reg(&mut self)
        requires
            old(self).mmu.wf(),
        ensures
            final(self)@ == old(self)@.cp_reg(),
            final(self).mmu.wf(),
            !reads_operands(old(self).opcode1) && !old(self).pending_interrupt
                ==> final(self)@.ready_to_go_on(),
    {
        reveal(CpuState::ready_to_go_on);
        reveal(CpuState::cp_reg);
        if self.cycles == 0 {
            let (reg_id, value) = self.source_operand();
            let (_result, flags) = sub_8bit(self.registers.a, value, 0);
            self.registers.f = flags;
            self.cycles = if reg_id == 6 {
                2
            } else {
                1
            };
        }
    }

    pub fn cp_d8(&mut self)
        requires
            old(self).mmu.wf(),
        ensures
            final(self)@ == old(self)@.cp_d8(),
            final(self).mmu.wf(),
            !reads_operands(old(self).opcode1) && !old(self).pending_interrupt
                ==> final(self)@.ready_to_go_on(),
    {
        reveal(CpuState::ready_to_go_on);
        reveal(CpuState::cp_d8);
        if self.cycles == 0 {
            let value = self.next_byte();
            let (_result, flags) = sub_8bit(self.registers.a, value, 0);
            self.registers.f = flags;
            self.cycles = 2;
        }
    }

    pub fn add_hl_reg16(&mut self)
        requires
            old(self).mmu.wf(),
        ensures
            final(self)@ == old(self)@.add_hl_reg16(),
            final(self).mmu.wf(),
            !reads_operands(old(self).opcode1) && !old(self).pending_interrupt
                ==> final(self)@.ready_to_go_on(),
    {
        reveal(CpuState::ready_to_go_on);
        reveal(CpuState::add_hl_reg16);
        if self.cycles == 0 {
            proof {
                lemma_field_bounds(self.opcode1);
            }
            let reg_id = (self.opcode1 & 0x30) >> 4;
            let value = self.read_reg16(reg_id);
            let hl = self.registers.get_hl();
            proof {
                lemma_low_bits(0, hl);
                lemma_low_bits(0, value);
            }
            let result32 = hl as u32 + value as u32;
            let result = (result32 % 65536) as u16;
            let result12 = (hl & 0x0fff) + (value & 0x0fff);
            let flags = Flags {
                z: self.registers.f.z,
                n: false,
                h: result12 > 0x0fff,
                c: result32 > 0xffff,
            };
            self.registers.set_hl(result);
            self.registers.f = flags;
            self.cycles = 2;
        }
    }

    pub fn add_sp_r8(&mut self)
        requires
            old(self).mmu.wf(),
            old(self).cycles == 3 ==> old(self).mem_read@.len() >= 1,
        ensures
            final(self)@ == old(self)@.add_sp_r8(),
            final(self).mmu.wf(),
            old(self).opcode1 == 0xe8 && old(self)@.operands_ready()
                && !old(self).pending_interrupt ==> final(self)@.ready_to_go_on(),
    {
        reveal(CpuState::ready_to_go_on);
        reveal(CpuState::add_sp_r8);
        match self.cycles {
            0 => {
                self.cycles = 4;
                self.read_operand();
            },
            3 => {
                let offset16 = sign_extend(self.mem_read[0]);
                let (result, flags) = add_16bit(self.sp, offset16);
                self.sp = result;
                self.registers.f = flags;
            },
            _ => {},
        }
    }

    pub fn and_reg(&mut self)
        requires
            old(self).mmu.wf(),
        ensures
            final(self)@ == old(self)@.and_reg(),
            final(self).mmu.wf(),
            !reads_operands(old(self).opcode1) && !old(self).pending_interrupt
                ==> final(self)@.ready_to_go_on(),
    {
        reveal(CpuState::ready_to_go_on);
        reveal(CpuState::and_reg);
        if self.cycles == 0 {
            let (reg_id, value) = self.source_operand();
            self.registers.a = self.registers.a & value;
            self.registers.f = Flags { z: self.registers.a == 0, n: false, h: true, c: false };
            self.cycles = if reg_id == 6 {
                2
            } else {
                1
            };
        }
    }

    pub fn and_d8(&mut self)
        requires
            old(self).mmu.wf(),
        ensures
            final(self)@ == old(self)@.and_d8(),
            final(self).mmu.wf(),
            !reads_operands(old(self).opcode1) && !old(self).pending_interrupt
                ==> final(self)@.ready_to_go_on(),
    {
        reveal(CpuState::ready_to_go_on);
        reveal(CpuState::and_d8);
        if self.cycles == 0 {
            let value = self.next_byte();
            self.registers.a = self.registers.a & value;
            self.registers.f = Flags { z: self.registers.a == 0, n: false, h: true, c: false };
            self.cycles = 2;
        }
    }

    pub fn or_reg(&mut self)
        requires
            old(self).mmu.wf(),
        ensures
            final(self)@ == old(self)@.or_reg(),
            final(self).mmu.wf(),
            !reads_operands(old(self).opcode1) && !old(self).pending_interrupt
                ==> final(self)@.ready_to_go_on(),
    {
        reveal(CpuState::ready_to_go_on);
        reveal(CpuState::or_reg);
        if self.cycles == 0 {
            let (reg_id, value) = self.source_operand();
            self.registers.a = self.registers.a | value;
            self.registers.f = Flags { z: self.registers.a == 0, n: false, h: false, c: false };
            self.cycles = if reg_id == 6 {
                2
            } else {
                1
            };
        }
    }

    pub fn or_d8(&mut self)
        requires
            old(self).mmu.wf(),
        ensures
            final(self)@ == old(self)@.or_d8(),
            final(self).mmu.wf(),
            !reads_operands(old(self).opcode1) && !old(self).pending_interrupt
                ==> final(self)@.ready_to_go_on(),
    {
        reveal(CpuState::ready_to_go_on);
        reveal(CpuState::or_d8);
        if self.cycles == 0 {
            let value = self.next_byte();
            self.registers.a = self.registers.a | value;
            self.registers.f = Flags { z: self.registers.a == 0, n: false, h: false, c: false };
            self.cycles = 2;
        }
    }

    pub fn xor_reg(&mut self)
        requires
            old(self).mmu.wf(),
        ensures
            final(self)@ == old(self)@.xor_reg(),
            final(self).mmu.wf(),
            !reads_operands(old(self).opcode1) && !old(self).pending_interrupt
                ==> final(self)@.ready_to_go_on(),
    {
        reveal(CpuState::ready_to_go_on);
        reveal(CpuState::xor_reg);
        if self.cycles == 0 {
            let (reg_id, value) = self.source_operand();
            self.registers.a = self.registers.a ^ value;
            self.registers.f = Flags { z: self.registers.a == 0, n: false, h: false, c: false };
            self.cycles = if reg_id == 6 {
                2
            } else {
                1
            };
        }
    }

    pub fn xor_d8(&mut self)
        requires
            old(self).mmu.wf(),
        ensures
            final(self)@ == old(self)@.xor_d8(),
            final(self).mmu.wf(),
            !reads_operands(old(self).opcode1) && !old(self).pending_interrupt
                ==> final(self)@.ready_to_go_on(),
    {
        reveal(CpuState::ready_to_go_on);
        reveal(CpuState::xor_d8);
        if self.cycles == 0 {
            let value = self.next_byte();
            self.registers.a = self.registers.a ^ value;
            self.registers.f = Flags { z: self.registers.a == 0, n: false, h: false, c: false };
            self.cycles = 2;
        }
    }

    pub fn inc_hl(&mut self)
        requires
            old(self).mmu.wf(),
            old(self).cycles == 2 ==> old(self).mem_read@.len() >= 1,
        ensures
            final(self)@ == old(self)@.inc_hl(),
            final(self).mmu.wf(),
            old(self).opcode1 == 0x34 && old(self)@.operands_ready()
                && !old(self).pending_interrupt ==> final(self)@.ready_to_go_on(),
    {
        reveal(CpuState::ready_to_go_on);
        reveal(CpuState::inc_hl);
        match self.cycles {
            0 => {
                self.cycles = 3;
                let mem_read = self.mmu.read_byte(self.registers.get_hl() as usize);
                self.mem_read.push(mem_read);
            },
            2 => {
                let carry = self.registers.f.c;
                let value = self.mem_read[0];
                let (result, mut flags) = add_8bit(value, 1, 0);
                flags.c = carry;
                self.mmu.write_byte(self.registers.get_hl() as usize, result);
                self.registers.f = flags;
            },
            _ => {},
        }
    }

    pub fn inc_reg8(&mut self)
        requires
            old(self).mmu.wf(),
        ensures
            final(self)@ == old(self)@.inc_reg8(),
            final(self).mmu.wf(),
            !reads_operands(old(self).opcode1) && !old(self).pending_interrupt
                ==> final(self)@.ready_to_go_on(),
    {
        reveal(CpuState::ready_to_go_on);
        reveal(CpuState::inc_reg8);
        if self.cycles == 0 {
            proof {
                lemma_field_bounds(self.opcode1);
            }
            let reg_id = (self.opcode1 & 0x38) >> 3;
            let carry = self.registers.f.c;
            let value = self.read_reg8(reg_id);
            let (result, mut flags) = add_8bit(value, 1, 0);
            flags.c = carry;
            self.write_reg8(reg_id, result);
            self.registers.f = flags;
            self.cycles = 1;
        }
    }

    pub fn dec_hl(&mut self)
        requires
            old(self).mmu.wf(),
            old(self).cycles == 2 ==> old(self).mem_read@.len() >= 1,
        ensures
            final(self)@ == old(self)@.dec_hl(),
            final(self).mmu.wf(),
            old(self).opcode1 == 0x35 && old(self)@.operands_ready()
                && !old(self).pending_interrupt ==> final(self)@.ready_to_go_on(),
    {
        reveal(CpuState::ready_to_go_on);
        reveal(CpuState::dec_hl);
        match self.cycles {
            0 => {
                self.cycles = 3;
                let mem_read = self.mmu.read_byte(self.registers.get_hl() as usize);
                self.mem_read.push(mem_read);
            },
            2 => {
                let carry = self.registers.f.c;
                let value = self.mem_read[0];
                let (result, mut flags) = sub_8bit(value, 1, 0);
                flags.c = carry;
                self.mmu.write_byte(self.registers.get_hl() as usize, result);
                self.registers.f = flags;
            },
            _ => {},
        }
    }

    pub fn dec_reg8(&mut self)
        requires
            old(self).mmu.wf(),
        ensures
            final(self)@ == old(self)@.dec_reg8(),
            final(self).mmu.wf(),
            !reads_operands(old(self).opcode1) && !old(self).pending_interrupt
                ==> final(self)@.ready_to_go_on(),
    {
        reveal(CpuState::ready_to_go_on);
        reveal(CpuState::dec_reg8);
        if self.cycles == 0 {
            proof {
                lemma_field_bounds(self.opcode1);
            }
            let reg_id = (self.opcode1 & 0x38) >> 3;
            let carry = self.registers.f.c;
            let value = self.read_reg8(reg_id);
            let (result, mut flags) = sub_8bit(value, 1, 0);
            flags.c = carry;
            self.write_reg8(reg_id, result);
            self.registers.f = flags;
            self.cycles = 1;
        }
    }

    pub fn inc_reg16(&mut self)
        requires
            old(self).mmu.wf(),
        ensures
            final(self)@ == old(self)@.inc_reg16(),
            final(self).mmu.wf(),
            !reads_operands(old(self).opcode1) && !old(self).pending_interrupt
                ==> final(self)@.ready_to_go_on(),
    {
        reveal(CpuState::ready_to_go_on);
        reveal(CpuState::inc_reg16);
        if self.cycles == 0 {
            proof {
                lemma_field_bounds(self.opcode1);
            }
            let reg_id = (self.opcode1 & 0x30) >> 4;
            let result = self.read_reg16(reg_id).wrapping_add(1);
            self.write_reg16(reg_id, result);
            self.cycles = 2;
        }
    }

    pub fn dec_reg16(&mut self)
        requires
            old(self).mmu.wf(),
        ensures
            final(self)@ == old(self)@.dec_reg16(),
            final(self).mmu.wf(),
            !reads_operands(old(self).opcode1) && !old(self).pending_interrupt
                ==> final(self)@.ready_to_go_on(),
    {
        reveal(CpuState::ready_to_go_on);
        reveal(CpuState::dec_reg16);
        if self.cycles == 0 {
            proof {
                lemma_field_bounds(self.opcode1);
            }
            let reg_id = (self.opcode1 & 0x30) >> 4;
            let result = self.read_reg16(reg_id).wrapping_sub(1);
            self.write_reg16(reg_id, result);
            self.cycles = 2;
        }
    }

    pub fn daa(&mut self)
        requires
            old(self).mmu.wf(),
        ensures
            final(self)@ == old(self)@.daa(),
            final(self).mmu.wf(),
            !reads_operands(old(self).opcode1) && !old(self).pending_interrupt
                ==> final(self)@.ready_to_go_on(),
    {
        reveal(CpuState::ready_to_go_on);
        reveal(CpuState::daa);
        let (a, flags) = decimal_adjust(self.registers.a, self.registers.f);
        self.registers.a = a;
        self.registers.f = flags;
        self.cycles = 1;
    }

    pub fn cpl(&mut self)
        requires
            old(self).mmu.wf(),
        ensures
            final(self)@ == old(self)@.cpl(),
            final(self).mmu.wf(),
            !reads_operands(old(self).opcode1) && !old(self).pending_interrupt
                ==> final(self)@.ready_to_go_on(),
    {
        reveal(CpuState::ready_to_go_on);
        reveal(CpuState::cpl);
        self.registers.a = !self.registers.a;
        self.registers.f.n = true;
        self.registers.f.h = true;
        self.cycles = 1;
    }

    pub fn scf(&mut self)
        requires
            old(self).mmu.wf(),
        ensures
            final(self)@ == old(self)@.scf(),
            final(self).mmu.wf(),
            !reads_operands(old(self).opcode1) && !old(self).pending_interrupt
                ==> final(self)@.ready_to_go_on(),
    {
        reveal(CpuState::ready_to_go_on);
        reveal(CpuState::scf);
        self.registers.f.c = true;
        self.registers.f.h = false;
        self.registers.f.n = false;
        self.cycles = 1;
    }

    pub fn ccf(&mut self)
        requires
            old(self).mmu.wf(),
        ensures
            final(self)@ == old(self)@.ccf(),
            final(self).mmu.wf(),
            !reads_operands(old(self).opcode1) && !old(self).pending_interrupt
                ==> final(self)@.ready_to_go_on(),
    {
        reveal(CpuState::ready_to_go_on);
        reveal(CpuState::ccf);
        self.registers.f.c = !self.registers.f.c;
        self.registers.f.h = false;
        self.registers.f.n = false;
        self.cycles = 1;
    }
}

} // verus!
