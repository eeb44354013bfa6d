//! Loads: between registers, between registers and memory, and of
//! immediate operands.

use vstd::prelude::*;
use crate::bits::{hi_byte, lo_byte, word, lemma_field_bounds};
use crate::cpu::{CPU, CpuState, next16, prev16};
use crate::instructions::alu::{add_16bit, sum_16bit};
use crate::cycle::reads_operands;

verus! {

/// The 3-bit operand field in bits 5 to 3 of an opcode.
pub open spec fn dest_field(opcode: u8) -> u8 {
    (opcode & 0x38) >> 3
}

/// The 3-bit operand field in bits 2 to 0 of an opcode.
pub open spec fn source_field(opcode: u8) -> u8 {
    opcode & 0x07
}

/// The 2-bit register pair field in bits 5 and 4 of an opcode.
pub open spec fn pair_field(opcode: u8) -> u8 {
    (opcode & 0x30) >> 4
}

/// The 2-bit condition field in bits 4 and 3 of an opcode.
pub open spec fn condition_field(opcode: u8) -> u8 {
    (opcode & 0x18) >> 3
}

/// A signed 8-bit offset as the 16-bit value that adds it modulo 65536.
pub open spec fn sign_extended(offset: u8) -> u16 {
    if offset & 0x80 != 0 {
        offset as u16 | 0xff00
    } else {
        offset as u16
    }
}

pub fn sign_extend(offset: u8) -> (r: u16)
    ensures
        r == sign_extended(offset),
{
    if offset & 0x80 != 0 {
        offset as u16 | 0xff00
    } else {
        offset as u16
    }
}

/// The address in the high page that an 8-bit operand names.
pub open spec fn high_page(offset: u8) -> usize {
    (0xff00 + offset) as usize
}

impl CpuState {
    /// LD (a16),SP: five cycles; the operand is read in the first two, the
    /// low byte of SP is stored in the third and the high byte in the
    /// fourth.
    #[verifier::opaque]
    pub open spec fn ld_a16_sp(self) -> CpuState {
        match self.cycles {
            0 => self.with_operand().taking(5),
            4 => self.with_operand(),
            3 => CpuState {
                mmu: self.mmu.with_write(self.operand16() as usize, lo_byte(self.sp)),
                ..self
            },
            2 => CpuState {
                mmu: self.mmu.with_write((self.operand16() + 1) as usize, hi_byte(self.sp)),
                ..self
            },
            _ => self,
        }
    }

    /// LD SP,HL: two cycles.
    #[verifier::opaque]
    pub open spec fn ld_sp_hl(self) -> CpuState {
        if self.cycles == 0 {
            CpuState { sp: self.registers.hl(), cycles: 2, ..self }
        } else {
            self
        }
    }

    /// LD HL,SP+r8: three cycles; HL and the flags are set in the second.
    #[verifier::opaque]
    pub open spec fn ldhl_sp_r8(self) -> CpuState {
        match self.cycles {
            0 => self.with_operand().taking(3),
            2 => {
                let (result, flags) = sum_16bit(self.sp, sign_extended(self.mem_read[0]));
                CpuState {
                    registers: crate::registers::Registers {
                        f: flags,
                        ..self.registers.with_hl(result)
                    },
                    ..self
                }
            },
            _ => self,
        }
    }

    /// LD (HL+),A: two cycles.
    #[verifier::opaque]
    pub open spec fn ld_hli_a(self) -> CpuState {
        if self.cycles == 0 {
            CpuState {
                mmu: self.mmu.with_write(self.registers.hl() as usize, self.registers.a),
                registers: self.registers.with_hl(next16(self.registers.hl())),
                cycles: 2,
                ..self
            }
        } else {
            self
        }
    }

    /// LD (HL-),A: two cycles.
    #[verifier::opaque]
    pub open spec fn ld_hld_a(self) -> CpuState {
        if self.cycles == 0 {
            CpuState {
                mmu: self.mmu.with_write(self.registers.hl() as usize, self.registers.a),
                registers: self.registers.with_hl(prev16(self.registers.hl())),
                cycles: 2,
                ..self
            }
        } else {
            self
        }
    }

    /// LD A,(HL-): two cycles.
    #[verifier::opaque]
    pub open spec fn ld_a_hld(self) -> CpuState {
        if self.cycles == 0 {
            CpuState {
                registers: crate::registers::Registers {
                    a: self.mmu.read_value(self.registers.hl() as usize),
                    ..self.registers
                }.with_hl(prev16(self.registers.hl())),
                cycles: 2,
                ..self
            }
        } else {
            self
        }
    }

    /// LD A,(HL+): two cycles.
    #[verifier::opaque]
    pub open spec fn ld_a_hli(self) -> CpuState {
        if self.cycles == 0 {
            CpuState {
                registers: crate::registers::Registers {
                    a: self.mmu.read_value(self.registers.hl() as usize),
                    ..self.registers
                }.with_hl(next16(self.registers.hl())),
                cycles: 2,
                ..self
            }
        } else {
            self
        }
    }

    /// LD (C),A: two cycles; the address is 0xff00 + C.
    #[verifier::opaque]
    pub open spec fn ld_ff_c_a(self) -> CpuState {
        if self.cycles == 0 {
            CpuState {
                mmu: self.mmu.with_write(high_page(self.registers.c), self.registers.a),
                cycles: 2,
                ..self
            }
        } else {
            self
        }
    }

    /// LD A,(C): two cycles.
    #[verifier::opaque]
    pub open spec fn ld_a_ff_c(self) -> CpuState {
        if self.cycles == 0 {
            CpuState {
                registers: crate::registers::Registers {
                    a: self.mmu.read_value(high_page(self.registers.c)),
                    ..self.registers
                },
                cycles: 2,
                ..self
            }
        } else {
            self
        }
    }

    /// LDH (a8),A: three cycles; the store happens in the second.
    #[verifier::opaque]
    pub open spec fn ld_a8_a(self) -> CpuState {
        match self.cycles {
            0 => self.with_operand().taking(3),
            2 => CpuState {
                mmu: self.mmu.with_write(high_page(self.mem_read[0]), self.registers.a),
                ..self
            },
            _ => self,
        }
    }

    /// LDH A,(a8): three cycles; memory is read in the second and A is set
    /// in the third.
    #[verifier::opaque]
    pub open spec fn ld_a_a8(self) -> CpuState {
        match self.cycles {
            0 => self.with_operand().taking(3),
            2 => self.with_scratch(self.mmu.read_value(high_page(self.mem_read[0]))),
            _ => CpuState {
                registers: crate::registers::Registers { a: self.mem_read[1], ..self.registers },
                ..self
            },
        }
    }

    /// LD rr,d16: three cycles.
    #[verifier::opaque]
    pub open spec fn ld_reg16_d16(self) -> CpuState {
        match self.cycles {
            0 => self.with_operand().taking(3),
            2 => self.with_operand(),
            _ => self.with_reg16(pair_field(self.opcode1), self.operand16()),
        }
    }

    /// LD A,(BC): two cycles.
    #[verifier::opaque]
    pub open spec fn ld_a_bc(self) -> CpuState {
        if self.cycles == 0 {
            CpuState {
                registers: crate::registers::Registers {
                    a: self.mmu.read_value(self.registers.bc() as usize),
                    ..self.registers
                },
                cycles: 2,
                ..self
            }
        } else {
            self
        }
    }

    /// LD A,(DE): two cycles.
    #[verifier::opaque]
    pub open spec fn ld_a_de(self) -> CpuState {
        if self.cycles == 0 {
            CpuState {
                registers: crate::registers::Registers {
                    a: self.mmu.read_value(self.registers.de() as usize),
                    ..self.registers
                },
                cycles: 2,
                ..self
            }
        } else {
            self
        }
    }

    /// LD (BC),A: two cycles.
    #[verifier::opaque]
    pub open spec fn ld_bc_a(self) -> CpuState {
        if self.cycles == 0 {
            CpuState {
                mmu: self.mmu.with_write(self.registers.bc() as usize, self.registers.a),
                cycles: 2,
                ..self
            }
        } else {
            self
        }
    }

    /// LD (DE),A: two cycles.
    #[verifier::opaque]
    pub open spec fn ld_de_a(self) -> CpuState {
        if self.cycles == 0 {
            CpuState {
                mmu: self.mmu.with_write(self.registers.de() as usize, self.registers.a),
                cycles: 2,
                ..self
            }
        } else {
            self
        }
    }

    /// LD (a16),A: four cycles; the store happens in the third.
    #[verifier::opaque]
    pub open spec fn ld_a16_a(self) -> CpuState {
        match self.cycles {
            0 => self.with_operand().taking(4),
            3 => self.with_operand(),
            2 => CpuState {
                mmu: self.mmu.with_write(self.operand16() as usize, self.registers.a),
                ..self
            },
            _ => self,
        }
    }

    /// LD A,(a16): four cycles; memory is read in the third and A is set
    /// in the fourth.
    #[verifier::opaque]
    pub open spec fn ld_a_a16(self) -> CpuState {
        match self.cycles {
            0 => self.with_operand().taking(4),
            3 => self.with_operand(),
            2 => self.with_scratch(self.mmu.read_value(self.operand16() as usize)),
            _ => CpuState {
                registers: crate::registers::Registers { a: self.mem_read[2], ..self.registers },
                ..self
            },
        }
    }

    /// LD (HL),d8: three cycles; the store happens in the second.
    #[verifier::opaque]
    pub open spec fn ld_hl_d8(self) -> CpuState {
        match self.cycles {
            0 => self.with_operand().taking(3),
            2 => CpuState {
                mmu: self.mmu.with_write(self.registers.hl() as usize, self.mem_read[0]),
                ..self
            },
            _ => self,
        }
    }

    /// LD r,d8: two cycles.
    #[verifier::opaque]
    pub open spec fn ld_reg_d8(self) -> CpuState {
        if self.cycles == 0 {
            CpuState {
                registers: self.registers.with_reg8(dest_field(self.opcode1), self.fetched()),
                cycles: 2,
                ..self.with_fetch()
            }
        } else {
            self
        }
    }

    /// LD r,r': one cycle, two if either side is (HL).
    #[verifier::opaque]
    pub open spec fn ld_reg_reg(self) -> CpuState {
        if self.cycles == 0 {
            let dest = dest_field(self.opcode1);
            let source = source_field(self.opcode1);
            self.with_reg8(dest, self.reg8(source)).taking(
                if source == 6 || dest == 6 {
                    2
                } else {
                    1
                },
            )
        } else {
            self
        }
    }
}

impl CPU {
    /// The 16-bit operand in the first two scratch bytes.
    pub fn operand_word(&self) -> (r: u16)
        requires
            self.mem_read@.len() >= 2,
        ensures
            r == self@.operand16(),
    {
        (self.mem_read[1] as u16) << 8 | (self.mem_read[0] as u16)
    }

    pub fn ld_a16_sp(&mut self)
        requires
            old(self).mmu.wf(),
            old(self).cycles == 3 || old(self).cycles == 2 ==> old(self).mem_read@.len() >= 2,
        ensures
            final(self)@ == old(self)@.ld_a16_sp(),
            final(self).mmu.wf(),
            old(self).opcode1 == 0x08 && old(self)@.operands_ready()
                && !old(self).pending_interrupt ==> final(self)@.ready_to_go_on(),
    {
        reveal(CpuState::ready_to_go_on);
        reveal(CpuState::ld_a16_sp);
        match self.cycles {
            0 => {
                self.read_operand();
                self.cycles = 5;
            },
            4 => {
                self.read_operand();
            },
            3 => {
                let address = self.operand_word() as usize;
                self.mmu.write_byte(address, self.sp as u8);
            },
            2 => {
                let address = self.operand_word() as usize;
                self.mmu.write_byte(address + 1, ((self.sp & 0xff00) >> 8) as u8);
            },
            _ => {},
        }
    }

    pub fn ld_sp_hl(&mut self)
        ensures
            final(self)@ == old(self)@.ld_sp_hl(),
            final(self).mmu == old(self).mmu,
            !reads_operands(old(self).opcode1) && !old(self).pending_interrupt
                ==> final(self)@.ready_to_go_on(),
    {
        reveal(CpuState::ready_to_go_on);
        reveal(CpuState::ld_sp_hl);
        if self.cycles == 0 {
            self.cycles = 2;
            self.sp = self.registers.get_hl();
        }
    }

    pub fn ldhl_sp_r8(&mut self)
        requires
            old(self).mmu.wf(),
            old(self).cycles == 2 ==> old(self).mem_read@.len() >= 1,
        ensures
            final(self)@ == old(self)@.ldhl_sp_r8(),
            final(self).mmu.wf(),
            old(self).opcode1 == 0xf8 && old(self)@.operands_ready()
                && !old(self).pending_interrupt ==> final(self)@.ready_to_go_on(),
    {
        reveal(CpuState::ready_to_go_on);
        reveal(CpuState::ldhl_sp_r8);
        match self.cycles {
            0 => {
                self.cycles = 3;
                self.read_operand();
            },
            2 => {
                let offset16 = sign_extend(self.mem_read[0]);
                let (result, flags) = add_16bit(self.sp, offset16);
                self.registers.set_hl(result);
                self.registers.f = flags;
            },
            _ => {},
        }
    }

    pub fn ld_hli_a(&mut self)
        requires
            old(self).mmu.wf(),
        ensures
            final(self)@ == old(self)@.ld_hli_a(),
            final(self).mmu.wf(),
            !reads_operands(old(self).opcode1) && !old(self).pending_interrupt
                ==> final(self)@.ready_to_go_on(),
    {
        reveal(CpuState::ready_to_go_on);
        reveal(CpuState::ld_hli_a);
        if self.cycles == 0 {
            let hl = self.registers.get_hl();
            self.mmu.write_byte(hl as usize, self.registers.a);
            self.registers.set_hl(hl.wrapping_add(1));
            self.cycles = 2;
        }
    }

    pub fn ld_hld_a(&mut self)
        requires
            old(self).mmu.wf(),
        ensures
            final(self)@ == old(self)@.ld_hld_a(),
            final(self).mmu.wf(),
            !reads_operands(old(self).opcode1) && !old(self).pending_interrupt
                ==> final(self)@.ready_to_go_on(),
    {
        reveal(CpuState::ready_to_go_on);
        reveal(CpuState::ld_hld_a);
        if self.cycles == 0 {
            let hl = self.registers.get_hl();
            self.mmu.write_byte(hl as usize, self.registers.a);
            self.registers.set_hl(hl.wrapping_sub(1));
            self.cycles = 2;
        }
    }

    pub fn ld_a_hld(&mut self)
        requires
            old(self).mmu.wf(),
        ensures
            final(self)@ == old(self)@.ld_a_hld(),
            final(self).mmu.wf(),
            !reads_operands(old(self).opcode1) && !old(self).pending_interrupt
                ==> final(self)@.ready_to_go_on(),
    {
        reveal(CpuState::ready_to_go_on);
        reveal(CpuState::ld_a_hld);
        if self.cycles == 0 {
            let hl = self.registers.get_hl();
            self.registers.a = self.mmu.read_byte(hl as usize);
            self.registers.set_hl(hl.wrapping_sub(1));
            self.cycles = 2;
        }
    }

    pub fn ld_a_hli(&mut self)
        requires
            old(self).mmu.wf(),
        ensures
            final(self)@ == old(self)@.ld_a_hli(),
            final(self).mmu.wf(),
            !reads_operands(old(self).opcode1) && !old(self).pending_interrupt
                ==> final(self)@.ready_to_go_on(),
    {
        reveal(CpuState::ready_to_go_on);
        reveal(CpuState::ld_a_hli);
        if self.cycles == 0 {
            let hl = self.registers.get_hl();
            self.registers.a = self.mmu.read_byte(hl as usize);
            self.registers.set_hl(hl.wrapping_add(1));
            self.cycles = 2;
        }
    }

    pub fn ld_ff_c_a(&mut self)
        requires
            old(self).mmu.wf(),
        ensures
            final(self)@ == old(self)@.ld_ff_c_a(),
            final(self).mmu.wf(),
            !reads_operands(old(self).opcode1) && !old(self).pending_interrupt
                ==> final(self)@.ready_to_go_on(),
    {
        reveal(CpuState::ready_to_go_on);
        reveal(CpuState::ld_ff_c_a);
        if self.cycles == 0 {
            let address = 0xff00 + self.registers.c as usize;
            self.mmu.write_byte(address, self.registers.a);
            self.cycles = 2;
        }
    }

    pub fn ld_a_ff_c(&mut self)
        requires
            old(self).mmu.wf(),
        ensures
            final(self)@ == old(self)@.ld_a_ff_c(),
            final(self).mmu.wf(),
            !reads_operands(old(self).opcode1) && !old(self).pending_interrupt
                ==> final(self)@.ready_to_go_on(),
    {
        reveal(CpuState::ready_to_go_on);
        reveal(CpuState::ld_a_ff_c);
        if self.cycles == 0 {
            let address = 0xff00 + self.registers.c as usize;
            self.registers.a = self.mmu.read_byte(address);
            self.cycles = 2;
        }
    }

    pub fn ld_a8_a(&mut self)
        requires
            old(self).mmu.wf(),
            old(self).cycles == 2 ==> old(self).mem_read@.len() >= 1,
        ensures
            final(self)@ == old(self)@.ld_a8_a(),
            final(self).mmu.wf(),
            old(self).opcode1 == 0xe0 && old(self)@.operands_ready()
                && !old(self).pending_interrupt ==> final(self)@.ready_to_go_on(),
    {
        reveal(CpuState::ready_to_go_on);
        reveal(CpuState::ld_a8_a);
        match self.cycles {
            0 => {
                self.cycles = 3;
                self.read_operand();
            },
            2 => {
                let address = 0xff00 + self.mem_read[0] as usize;
                self.mmu.write_byte(address, self.registers.a);
            },
            _ => {},
        }
    }

    pub fn ld_a_a8(&mut self)
        requires
            old(self).mmu.wf(),
            old(self).cycles == 2 ==> old(self).mem_read@.len() >= 1,
            old(self).cycles != 0 && old(self).cycles != 2 ==> old(self).mem_read@.len() >= 2,
        ensures
            final(self)@ == old(self)@.ld_a_a8(),
            final(self).mmu.wf(),
            old(self).opcode1 == 0xf0 && old(self)@.operands_ready()
                && !old(self).pending_interrupt ==> final(self)@.ready_to_go_on(),
    {
        reveal(CpuState::ready_to_go_on);
        reveal(CpuState::ld_a_a8);
        match self.cycles {
            0 => {
                self.cycles = 3;
                self.read_operand();
            },
            2 => {
                let address = 0xff00 + self.mem_read[0] as usize;
                let mem_read = self.mmu.read_byte(address);
                self.mem_read.push(mem_read);
            },
            _ => self.registers.a = self.mem_read[1],
        }
    }

    pub fn ld_reg16_d16(&mut self)
        requires
            old(self).mmu.wf(),
            old(self).cycles != 0 && old(self).cycles != 2 ==> old(self).mem_read@.len() >= 2,
        ensures
            final(self)@ == old(self)@.ld_reg16_d16(),
            final(self).mmu.wf(),
            (old(self).opcode1 == 0x01 || old(self).opcode1 == 0x11 || old(self).opcode1 == 0x21
                || old(self).opcode1 == 0x31)
                && old(self)@.operands_ready() && !old(self).pending_interrupt
                ==> final(self)@.ready_to_go_on(),
    {
        reveal(CpuState::ready_to_go_on);
        reveal(CpuState::ld_reg16_d16);
        match self.cycles {
            0 => {
                self.read_operand();
                self.cycles = 3;
            },
            2 => {
                self.read_operand();
            },
            _ => {
                proof {
                    lemma_field_bounds(self.opcode1);
                }
                let dest_id = (self.opcode1 & 0x30) >> 4;
                let value = self.operand_word();
                self.write_reg16(dest_id, value);
            },
        }
    }

    pub fn ld_a_bc(&mut self)
        requires
            old(self).mmu.wf(),
        ensures
            final(self)@ == old(self)@.ld_a_bc(),
            final(self).mmu.wf(),
            !reads_operands(old(self).opcode1) && !old(self).pending_interrupt
                ==> final(self)@.ready_to_go_on(),
    {
        reveal(CpuState::ready_to_go_on);
        reveal(CpuState::ld_a_bc);
        if self.cycles == 0 {
            let address = self.registers.get_bc() as usize;
            self.registers.a = self.mmu.read_byte(address);
            self.cycles = 2;
        }
    }

    pub fn ld_a_de(&mut self)
        requires
            old(self).mmu.wf(),
        ensures
            final(self)@ == old(self)@.ld_a_de(),
            final(self).mmu.wf(),
            !reads_operands(old(self).opcode1) && !old(self).pending_interrupt
                ==> final(self)@.ready_to_go_on(),
    {
        reveal(CpuState::ready_to_go_on);
        reveal(CpuState::ld_a_de);
        if self.cycles == 0 {
            let address = self.registers.get_de() as usize;
            self.registers.a = self.mmu.read_byte(address);
            self.cycles = 2;
        }
    }

    pub fn ld_bc_a(&mut self)
        requires
            old(self).mmu.wf(),
        ensures
            final(self)@ == old(self)@.ld_bc_a(),
            final(self).mmu.wf(),
            !reads_operands(old(self).opcode1) && !old(self).pending_interrupt
                ==> final(self)@.ready_to_go_on(),
    {
        reveal(CpuState::ready_to_go_on);
        reveal(CpuState::ld_bc_a);
        if self.cycles == 0 {
            let address = self.registers.get_bc() as usize;
            self.mmu.write_byte(address, self.registers.a);
            self.cycles = 2;
        }
    }

    pub fn ld_de_a(&mut self)
        requires
            old(self).mmu.wf(),
        ensures
            final(self)@ == old(self)@.ld_de_a(),
            final(self).mmu.wf(),
            !reads_operands(old(self).opcode1) && !old(self).pending_interrupt
                ==> final(self)@.ready_to_go_on(),
    {
        reveal(CpuState::ready_to_go_on);
        reveal(CpuState::ld_de_a);
        if self.cycles == 0 {
            let address = self.registers.get_de() as usize;
            self.mmu.write_byte(address, self.registers.a);
            self.cycles = 2;
        }
    }

    pub fn ld_a16_a(&mut self)
        requires
            old(self).mmu.wf(),
            old(self).cycles == 2 ==> old(self).mem_read@.len() >= 2,
        ensures
            final(self)@ == old(self)@.ld_a16_a(),
            final(self).mmu.wf(),
            old(self).opcode1 == 0xea && old(self)@.operands_ready()
                && !old(self).pending_interrupt ==> final(self)@.ready_to_go_on(),
    {
        reveal(CpuState::ready_to_go_on);
        reveal(CpuState::ld_a16_a);
        match self.cycles {
            0 => {
                self.cycles = 4;
                self.read_operand();
            },
            3 => {
                self.read_operand();
            },
            2 => {
                let address = self.operand_word() as usize;
                self.mmu.write_byte(address, self.registers.a);
            },
            _ => {},
        }
    }

    pub fn ld_a_a16(&mut self)
        requires
            old(self).mmu.wf(),
            old(self).cycles == 2 ==> old(self).mem_read@.len() >= 2,
            old(self).cycles != 0 && old(self).cycles != 2 && old(self).cycles != 3 ==> old(
                self,
            ).mem_read@.len() >= 3,
        ensures
            final(self)@ == old(self)@.ld_a_a16(),
            final(self).mmu.wf(),
            old(self).opcode1 == 0xfa && old(self)@.operands_ready()
                && !old(self).pending_interrupt ==> final(self)@.ready_to_go_on(),
    {
        reveal(CpuState::ready_to_go_on);
        reveal(CpuState::ld_a_a16);
        match self.cycles {
            0 => {
                self.cycles = 4;
                self.read_operand();
            },
            3 => {
                self.read_operand();
            },
            2 => {
                let address = self.operand_word() as usize;
                let mem_read = self.mmu.read_byte(address);
                self.mem_read.push(mem_read);
            },
            _ => self.registers.a = self.mem_read[2],
        }
    }

    pub fn ld_hl_d8(&mut self)
        requires
            old(self).mmu.wf(),
            old(self).cycles == 2 ==> old(self).mem_read@.len() >= 1,
        ensures
            final(self)@ == old(self)@.ld_hl_d8(),
            final(self).mmu.wf(),
            old(self).opcode1 == 0x36 && old(self)@.operands_ready()
                && !old(self).pending_interrupt ==> final(self)@.ready_to_go_on(),
    {
        reveal(CpuState::ready_to_go_on);
        reveal(CpuState::ld_hl_d8);
        match self.cycles {
            0 => {
                self.cycles = 3;
                self.read_operand();
            },
            2 => {
                let address = self.registers.get_hl() as usize;
                self.mmu.write_byte(address, self.mem_read[0]);
            },
            _ => {},
        }
    }

    pub fn ld_reg_d8(&mut self)
        requires
            old(self).mmu.wf(),
            old(self).cycles == 0 ==> dest_field(old(self).opcode1) != 6,
        ensures
            final(self)@ == old(self)@.ld_reg_d8(),
            final(self).mmu.wf(),
            !reads_operands(old(self).opcode1) && !old(self).pending_interrupt
                ==> final(self)@.ready_to_go_on(),
    {
        reveal(CpuState::ready_to_go_on);
        reveal(CpuState::ld_reg_d8);
        if self.cycles == 0 {
            proof {
                lemma_field_bounds(self.opcode1);
            }
            let dest_id = (self.opcode1 & 0x38) >> 3;
            let value = self.next_byte();
            self.registers.set_reg8_by_id(dest_id, value);
            self.cycles = 2;
        }
    }

    pub fn ld_reg_reg(&mut self)
        requires
            old(self).mmu.wf(),
        ensures
            final(self)@ == old(self)@.ld_reg_reg(),
            final(self).mmu.wf(),
            !reads_operands(old(self).opcode1) && !old(self).pending_interrupt
                ==> final(self)@.ready_to_go_on(),
    {
        reveal(CpuState::ready_to_go_on);
        reveal(CpuState::ld_reg_reg);
        if self.cycles == 0 {
            proof {
                lemma_field_bounds(self.opcode1);
            }
            let dest_id = (self.opcode1 & 0x38) >> 3;
            let source_id = self.opcode1 & 0x07;
            let value = self.read_reg8(source_id);
            self.write_reg8(dest_id, value);
            self.cycles = if source_id == 6 || dest_id == 6 {
                2
            } else {
                1
            };
        }
    }
}

} // verus!
