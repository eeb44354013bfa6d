//! Rotations, shifts, nibble swaps and single-bit instructions.

use vstd::prelude::*;
use crate::bits::lemma_field_bounds;
use crate::cpu::{CPU, CpuState};
use crate::instructions::alu::{rotate_left, rotate_right, rotated_left, rotated_right};
use crate::instructions::load::{dest_field, source_field};
use crate::registers::{Flags, Registers};
use crate::cycle::reads_operands;

verus! {

/// RLC: a rotation to the left in which bit 7 also enters at bit 0.
pub open spec fn rotated_left_circular(value: u8) -> (u8, Flags) {
    rotated_left(value, value & 0x80 != 0)
}

/// RRC: a rotation to the right in which bit 0 also enters at bit 7.
pub open spec fn rotated_right_circular(value: u8) -> (u8, Flags) {
    rotated_right(value, value & 0x01 != 0)
}

/// SLA: a shift to the left; bit 7 leaves into C and zero enters.
pub open spec fn shifted_left(value: u8) -> (u8, Flags) {
    (value << 1, Flags { z: value << 1 == 0, n: false, h: false, c: value & 0x80 == 0x80 })
}

/// SRA: a shift to the right that keeps bit 7; bit 0 leaves into C.
pub open spec fn shifted_right_arithmetic(value: u8) -> (u8, Flags) {
    (
        (value >> 1) | (value & 0x80),
        Flags {
            z: (value >> 1) | (value & 0x80) == 0,
            n: false,
            h: false,
            c: value & 0x01 == 0x01,
        },
    )
}

/// SRL: a shift to the right; bit 0 leaves into C and zero enters.
pub open spec fn shifted_right(value: u8) -> (u8, Flags) {
    (value >> 1, Flags { z: value >> 1 == 0, n: false, h: false, c: value & 0x01 == 0x01 })
}

/// SWAP: the two nibbles exchanged; C is reset.
pub open spec fn swapped(value: u8) -> (u8, Flags) {
    (
        (value << 4) | ((value & 0xf0) >> 4),
        Flags { z: (value << 4) | ((value & 0xf0) >> 4) == 0, n: false, h: false, c: false },
    )
}

/// The mask of the bit that bits 5 to 3 of an opcode name.
pub open spec fn bit_mask(opcode: u8) -> u8 {
    0x01u8 << dest_field(opcode)
}

/// The flags after BIT: Z is set if the tested bit is clear, N is reset, H
/// is set, C is kept.
pub open spec fn bit_flags(value: u8, opcode: u8, f: Flags) -> Flags {
    Flags { z: value & bit_mask(opcode) == 0, n: false, h: true, ..f }
}

impl CpuState {
    /// An instruction that changes the byte that HL points to: four
    /// cycles; the byte is read in the second, and `result` is stored and
    /// the flags are set in the third.
    pub open spec fn modify_hl(self, result: (u8, Flags)) -> CpuState {
        match self.cycles {
            0 => self.taking(4),
            3 => self.with_scratch(self.mmu.read_value(self.registers.hl() as usize)),
            2 => CpuState {
                mmu: self.mmu.with_write(self.registers.hl() as usize, result.0),
                ..self.flagged(result.1)
            },
            _ => self,
        }
    }

    /// An instruction of the second opcode page that changes the operand
    /// named by bits 2 to 0 of the second opcode: two cycles.
    pub open spec fn modify_reg(self, result: (u8, Flags)) -> CpuState {
        if self.cycles == 0 {
            self.with_reg8(source_field(self.opcode2), result.0).flagged(result.1).taking(2)
        } else {
            self
        }
    }

    /// The operand named by bits 2 to 0 of the second opcode.
    pub open spec fn cb_operand(self) -> u8 {
        self.reg8(source_field(self.opcode2))
    }

    /// RR (HL).
    #[verifier::opaque]
    pub open spec fn rr_hl(self) -> CpuState {
        self.modify_hl(rotated_right(self.mem_read[0], self.registers.f.c))
    }

    /// RR r.
    #[verifier::opaque]
    pub open spec fn rr(self) -> CpuState {
        self.modify_reg(rotated_right(self.cb_operand(), self.registers.f.c))
    }

    /// RL (HL).
    #[verifier::opaque]
    pub open spec fn rl_hl(self) -> CpuState {
        self.modify_hl(rotated_left(self.mem_read[0], self.registers.f.c))
    }

    /// RL r.
    #[verifier::opaque]
    pub open spec fn rl(self) -> CpuState {
        self.modify_reg(rotated_left(self.cb_operand(), self.registers.f.c))
    }

    /// RLC (HL).
    #[verifier::opaque]
    pub open spec fn rlc_hl(self) -> CpuState {
        self.modify_hl(rotated_left_circular(self.mem_read[0]))
    }

    /// RLC r.
    #[verifier::opaque]
    pub open spec fn rlc(self) -> CpuState {
        self.modify_reg(rotated_left_circular(self.cb_operand()))
    }

    /// RRC (HL).
    #[verifier::opaque]
    pub open spec fn rrc_hl(self) -> CpuState {
        self.modify_hl(rotated_right_circular(self.mem_read[0]))
    }

    /// RRC r.
    #[verifier::opaque]
    pub open spec fn rrc(self) -> CpuState {
        self.modify_reg(rotated_right_circular(self.cb_operand()))
    }

    /// The rotations of the accumulator on the first opcode page: one
    /// cycle, and Z is always reset.
    pub open spec fn rotate_a(self, result: (u8, Flags)) -> CpuState {
        self.accumulated((result.0, Flags { z: false, ..result.1 })).taking(1)
    }

    /// RLA.
    #[verifier::opaque]
    pub open spec fn rl_a(self) -> CpuState {
        self.rotate_a(rotated_left(self.registers.a, self.registers.f.c))
    }

    /// RLCA.
    #[verifier::opaque]
    pub open spec fn rlc_a(self) -> CpuState {
        self.rotate_a(rotated_left_circular(self.registers.a))
    }

    /// RRA.
    #[verifier::opaque]
    pub open spec fn rr_a(self) -> CpuState {
        self.rotate_a(rotated_right(self.registers.a, self.registers.f.c))
    }

    /// RRCA.
    #[verifier::opaque]
    pub open spec fn rrc_a(self) -> CpuState {
        self.rotate_a(rotated_right_circular(self.registers.a))
    }

    /// SLA (HL).
    #[verifier::opaque]
    pub open spec fn sla_hl(self) -> CpuState {
        self.modify_hl(shifted_left(self.mem_read[0]))
    }

    /// SLA r.
    #[verifier::opaque]
    pub open spec fn sla(self) -> CpuState {
        self.modify_reg(shifted_left(self.cb_operand()))
    }

    /// SRA (HL).
    #[verifier::opaque]
    pub open spec fn sra_hl(self) -> CpuState {
        self.modify_hl(shifted_right_arithmetic(self.mem_read[0]))
    }

    /// SRA r.
    #[verifier::opaque]
    pub open spec fn sra(self) -> CpuState {
        self.modify_reg(shifted_right_arithmetic(self.cb_operand()))
    }

    /// SRL (HL).
    #[verifier::opaque]
    pub open spec fn srl_hl(self) -> CpuState {
        self.modify_hl(shifted_right(self.mem_read[0]))
    }

    /// SRL r.
    #[verifier::opaque]
    pub open spec fn srl(self) -> CpuState {
        self.modify_reg(shifted_right(self.cb_operand()))
    }

    /// SWAP (HL).
    #[verifier::opaque]
    pub open spec fn swap_hl(self) -> CpuState {
        self.modify_hl(swapped(self.mem_read[0]))
    }

    /// SWAP r.
    #[verifier::opaque]
    pub open spec fn swap(self) -> CpuState {
        self.modify_reg(swapped(self.cb_operand()))
    }

    /// BIT n,(HL): three cycles; the byte is read in the second and the
    /// flags are set in the third.
    #[verifier::opaque]
    pub open spec fn bit_hl(self) -> CpuState {
        match self.cycles {
            0 => self.taking(3),
            2 => self.with_scratch(self.mmu.read_value(self.registers.hl() as usize)),
            _ => self.flagged(bit_flags(self.mem_read[0], self.opcode2, self.registers.f)),
        }
    }

    /// BIT n,r: two cycles.
    #[verifier::opaque]
    pub open spec fn bit(self) -> CpuState {
        if self.cycles == 0 {
            self.flagged(bit_flags(self.cb_operand(), self.opcode2, self.registers.f)).taking(2)
        } else {
            self
        }
    }

    /// RES n,(HL): the flags are kept.
    #[verifier::opaque]
    pub open spec fn res_hl(self) -> CpuState {
        self.modify_hl((self.mem_read[0] & !bit_mask(self.opcode2), self.registers.f))
    }

    /// RES n,r.
    #[verifier::opaque]
    pub open spec fn res(self) -> CpuState {
        self.modify_reg((self.cb_operand() & !bit_mask(self.opcode2), self.registers.f))
    }

    /// SET n,(HL): the flags are kept.
    #[verifier::opaque]
    pub open spec fn set_hl(self) -> CpuState {
        self.modify_hl((self.mem_read[0] | bit_mask(self.opcode2), self.registers.f))
    }

    /// SET n,r.
    #[verifier::opaque]
    pub open spec fn set(self) -> CpuState {
        self.modify_reg((self.cb_operand() | bit_mask(self.opcode2), self.registers.f))
    }
}

fn rotate_left_circular(value: u8) -> (r: (u8, Flags))
    ensures
        r == rotated_left_circular(value),
{
    rotate_left(value, value & 0x80 != 0)
}

fn rotate_right_circular(value: u8) -> (r: (u8, Flags))
    ensures
        r == rotated_right_circular(value),
{
    rotate_right(value, value & 0x01 != 0)
}

fn shift_left(value: u8) -> (r: (u8, Flags))
    ensures
        r == shifted_left(value),
{
    let result = value << 1;
    (result, Flags { z: result == 0, n: false, h: false, c: value & 0x80 == 0x80 })
}

fn shift_right_arithmetic(value: u8) -> (r: (u8, Flags))
    ensures
        r == shifted_right_arithmetic(value),
{
    let msb = value & 0x80;
    let result = (value >> 1) | msb;
    (result, Flags { z: result == 0, n: false, h: false, c: value & 0x01 == 0x01 })
}

fn shift_right(value: u8) -> (r: (u8, Flags))
    ensures
        r == shifted_right(value),
{
    let result = value >> 1;
    (result, Flags { z: result == 0, n: false, h: false, c: value & 0x01 == 0x01 })
}

fn swap_nibbles(value: u8) -> (r: (u8, Flags))
    ensures
        r == swapped(value),
{
    let temp = (value & 0xf0) >> 4;
    let result = (value << 4) | temp;
    (result, Flags { z: result == 0, n: false, h: false, c: false })
}

impl CPU {
    /// The first two cycles of an instruction on the byte that HL points
    /// to. Returns whether the byte is to be changed in this cycle.
    fn begin_modify_hl(&mut self) -> (r: bool)
        requires
            old(self).mmu.wf(),
        ensures
            r == (old(self).cycles == 2),
            r ==> final(self)@ == old(self)@,
            !r ==> forall|result: (u8, Flags)|
                final(self)@ == #[trigger] old(self)@.modify_hl(result),
            final(self).mmu.wf(),
    {
        match self.cycles {
            0 => {
                self.cycles = 4;
                false
            },
            3 => {
                let mem_read = self.mmu.read_byte(self.registers.get_hl() as usize);
                self.mem_read.push(mem_read);
                false
            },
            2 => true,
            _ => false,
        }
    }

    /// The third cycle of an instruction on the byte that HL points to.
    fn finish_modify_hl(&mut self, result: u8, flags: Flags)
        requires
            old(self).mmu.wf(),
            old(self).cycles == 2,
        ensures
            final(self)@ == old(self)@.modify_hl((result, flags)),
            final(self).mmu.wf(),
    {
        self.mmu.write_byte(self.registers.get_hl() as usize, result);
        self.registers.f = flags;
    }

    /// Reads the operand that bits 2 to 0 of the second opcode name.
    fn read_cb_operand(&self) -> (r: u8)
        requires
            self.mmu.wf(),
        ensures
            r == self@.cb_operand(),
    {
        proof {
            lemma_field_bounds(self.opcode2);
        }
        self.read_reg8(self.opcode2 & 0x07)
    }

    /// Stores the result of an instruction of the second opcode page.
    fn finish_modify_reg(&mut self, result: u8, flags: Flags)
        requires
            old(self).mmu.wf(),
            old(self).cycles == 0,
        ensures
            final(self)@ == old(self)@.modify_reg((result, flags)),
            final(self).mmu.wf(),
    {
        proof {
            lemma_field_bounds(self.opcode2);
        }
        let reg_id = self.opcode2 & 0x07;
        self.write_reg8(reg_id, result);
        self.registers.f = flags;
        self.cycles = 2;
    }

    /// The mask of the bit that the second opcode names.
    fn cb_mask(&self) -> (r: u8)
        ensures
            r == bit_mask(self.opcode2),
    {
        proof {
            lemma_field_bounds(self.opcode2);
        }
        let bit_index = (self.opcode2 & 0x38) >> 3;
        0x01u8 << bit_index
    }

    pub fn rr_hl(&mut self)
        requires
            old(self).mmu.wf(),
            old(self).cycles == 2 ==> old(self).mem_read@.len() >= 1,
        ensures
            final(self)@ == old(self)@.rr_hl(),
            final(self).mmu.wf(),
            old(self).opcode1 == 0xcb && source_field(old(self).opcode2) == 6
                && !(8 <= old(self).opcode2 >> 3 <= 15) && old(self)@.operands_ready()
                && !old(self).pending_interrupt ==> final(self)@.ready_to_go_on(),
    {
        reveal(CpuState::ready_to_go_on);
        reveal(CpuState::rr_hl);
        if self.begin_modify_hl() {
            let (result, flags) = rotate_right(self.mem_read[0], self.registers.f.c);
            self.finish_modify_hl(result, flags);
        }
    }

    pub fn rr(&mut self)
        requires
            old(self).mmu.wf(),
        ensures
            final(self)@ == old(self)@.rr(),
            final(self).mmu.wf(),
            old(self).opcode1 == 0xcb && source_field(old(self).opcode2) != 6
                && !old(self).pending_interrupt ==> final(self)@.ready_to_go_on(),
    {
        reveal(CpuState::ready_to_go_on);
        reveal(CpuState::rr);
        if self.cycles == 0 {
            let (result, flags) = rotate_right(self.read_cb_operand(), self.registers.f.c);
            self.finish_modify_reg(result, flags);
        }
    }

    pub fn rl_hl(&mut self)
        requires
            old(self).mmu.wf(),
            old(self).cycles == 2 ==> old(self).mem_read@.len() >= 1,
        ensures
            final(self)@ == old(self)@.rl_hl(),
            final(self).mmu.wf(),
            old(self).opcode1 == 0xcb && source_field(old(self).opcode2) == 6
                && !(8 <= old(self).opcode2 >> 3 <= 15) && old(self)@.operands_ready()
                && !old(self).pending_interrupt ==> final(self)@.ready_to_go_on(),
    {
        reveal(CpuState::ready_to_go_on);
        reveal(CpuState::rl_hl);
        if self.begin_modify_hl() {
            let (result, flags) = rotate_left(self.mem_read[0], self.registers.f.c);
            self.finish_modify_hl(result, flags);
        }
    }

    pub fn rl(&mut self)
        requires
            old(self).mmu.wf(),
        ensures
            final(self)@ == old(self)@.rl(),
            final(self).mmu.wf(),
            old(self).opcode1 == 0xcb && source_field(old(self).opcode2) != 6
                && !old(self).pending_interrupt ==> final(self)@.ready_to_go_on(),
    {
        reveal(CpuState::ready_to_go_on);
        reveal(CpuState::rl);
        if self.cycles == 0 {
            let (result, flags) = rotate_left(self.read_cb_operand(), self.registers.f.c);
            self.finish_modify_reg(result, flags);
        }
    }

    pub fn rlc_hl(&mut self)
        requires
            old(self).mmu.wf(),
            old(self).cycles == 2 ==> old(self).mem_read@.len() >= 1,
        ensures
            final(self)@ == old(self)@.rlc_hl(),
            final(self).mmu.wf(),
            old(self).opcode1 == 0xcb && source_field(old(self).opcode2) == 6
                && !(8 <= old(self).opcode2 >> 3 <= 15) && old(self)@.operands_ready()
                && !old(self).pending_interrupt ==> final(self)@.ready_to_go_on(),
    {
        reveal(CpuState::ready_to_go_on);
        reveal(CpuState::rlc_hl);
        if self.begin_modify_hl() {
            let (result, flags) = rotate_left_circular(self.mem_read[0]);
            self.finish_modify_hl(result, flags);
        }
    }

    pub fn rlc(&mut self)
        requires
            old(self).mmu.wf(),
        ensures
            final(self)@ == old(self)@.rlc(),
            final(self).mmu.wf(),
            old(self).opcode1 == 0xcb && source_field(old(self).opcode2) != 6
                && !old(self).pending_interrupt ==> final(self)@.ready_to_go_on(),
    {
        reveal(CpuState::ready_to_go_on);
        reveal(CpuState::rlc);
        if self.cycles == 0 {
            let (result, flags) = rotate_left_circular(self.read_cb_operand());
            self.finish_modify_reg(result, flags);
        }
    }

    pub fn rrc_hl(&mut self)
        requires
            old(self).mmu.wf(),
            old(self).cycles == 2 ==> old(self).mem_read@.len() >= 1,
        ensures
            final(self)@ == old(self)@.rrc_hl(),
            final(self).mmu.wf(),
            old(self).opcode1 == 0xcb && source_field(old(self).opcode2) == 6
                && !(8 <= old(self).opcode2 >> 3 <= 15) && old(self)@.operands_ready()
                && !old(self).pending_interrupt ==> final(self)@.ready_to_go_on(),
    {
        reveal(CpuState::ready_to_go_on);
        reveal(CpuState::rrc_hl);
        if self.begin_modify_hl() {
            let (result, flags) = rotate_right_circular(self.mem_read[0]);
            self.finish_modify_hl(result, flags);
        }
    }

    pub fn rrc(&mut self)
        requires
            old(self).mmu.wf(),
        ensures
            final(self)@ == old(self)@.rrc(),
            final(self).mmu.wf(),
            old(self).opcode1 == 0xcb && source_field(old(self).opcode2) != 6
                && !old(self).pending_interrupt ==> final(self)@.ready_to_go_on(),
    {
        reveal(CpuState::ready_to_go_on);
        reveal(CpuState::rrc);
        if self.cycles == 0 {
            let (result, flags) = rotate_right_circular(self.read_cb_operand());
            self.finish_modify_reg(result, flags);
        }
    }

    /// Stores the result of a rotation of the accumulator.
    fn finish_rotate_a(&mut self, result: u8, flags: Flags)
        ensures
            final(self)@ == old(self)@.rotate_a((result, flags)),
            final(self).mmu == old(self).mmu,
    {
        self.registers.a = result;
        self.registers.f = flags;
        self.registers.f.z = false;
        self.cycles = 1;
    }

    pub fn rl_a(&mut self)
        requires
            old(self).mmu.wf(),
        ensures
            final(self)@ == old(self)@.rl_a(),
            final(self).mmu.wf(),
            !reads_operands(old(self).opcode1) && !old(self).pending_interrupt
                ==> final(self)@.ready_to_go_on(),
    {
        reveal(CpuState::ready_to_go_on);
        reveal(CpuState::rl_a);
        let (result, flags) = rotate_left(self.registers.a, self.registers.f.c);
        self.finish_rotate_a(result, flags);
    }

    pub fn rlc_a(&mut self)
        requires
            old(self).mmu.wf(),
        ensures
            final(self)@ == old(self)@.rlc_a(),
            final(self).mmu.wf(),
            !reads_operands(old(self).opcode1) && !old(self).pending_interrupt
                ==> final(self)@.ready_to_go_on(),
    {
        reveal(CpuState::ready_to_go_on);
        reveal(CpuState::rlc_a);
        let (result, flags) = rotate_left_circular(self.registers.a);
        self.finish_rotate_a(result, flags);
    }

    pub fn rr_a(&mut self)
        requires
            old(self).mmu.wf(),
        ensures
            final(self)@ == old(self)@.rr_a(),
            final(self).mmu.wf(),
            !reads_operands(old(self).opcode1) && !old(self).pending_interrupt
                ==> final(self)@.ready_to_go_on(),
    {
        reveal(CpuState::ready_to_go_on);
        reveal(CpuState::rr_a);
        let (result, flags) = rotate_right(self.registers.a, self.registers.f.c);
        self.finish_rotate_a(result, flags);
    }

    pub fn rrc_a(&mut self)
        requires
            old(self).mmu.wf(),
        ensures
            final(self)@ == old(self)@.rrc_a(),
            final(self).mmu.wf(),
            !reads_operands(old(self).opcode1) && !old(self).pending_interrupt
                ==> final(self)@.ready_to_go_on(),
    {
        reveal(CpuState::ready_to_go_on);
        reveal(CpuState::rrc_a);
        let (result, flags) = rotate_right_circular(self.registers.a);
        self.finish_rotate_a(result, flags);
    }

    pub fn sla_hl(&mut self)
        requires
            old(self).mmu.wf(),
            old(self).cycles == 2 ==> old(self).mem_read@.len() >= 1,
        ensures
            final(self)@ == old(self)@.sla_hl(),
            final(self).mmu.wf(),
            old(self).opcode1 == 0xcb && source_field(old(self).opcode2) == 6
                && !(8 <= old(self).opcode2 >> 3 <= 15) && old(self)@.operands_ready()
                && !old(self).pending_interrupt ==> final(self)@.ready_to_go_on(),
    {
        reveal(CpuState::ready_to_go_on);
        reveal(CpuState::sla_hl);
        if self.begin_modify_hl() {
            let (result, flags) = shift_left(self.mem_read[0]);
            self.finish_modify_hl(result, flags);
        }
    }

    pub fn sla(&mut self)
        requires
            old(self).mmu.wf(),
        ensures
            final(self)@ == old(self)@.sla(),
            final(self).mmu.wf(),
            old(self).opcode1 == 0xcb && source_field(old(self).opcode2) != 6
                && !old(self).pending_interrupt ==> final(self)@.ready_to_go_on(),
    {
        reveal(CpuState::ready_to_go_on);
        reveal(CpuState::sla);
        if self.cycles == 0 {
            let (result, flags) = shift_left(self.read_cb_operand());
            self.finish_modify_reg(result, flags);
        }
    }

    pub fn sra_hl(&mut self)
        requires
            old(self).mmu.wf(),
            old(self).cycles == 2 ==> old(self).mem_read@.len() >= 1,
        ensures
            final(self)@ == old(self)@.sra_hl(),
            final(self).mmu.wf(),
            old(self).opcode1 == 0xcb && source_field(old(self).opcode2) == 6
                && !(8 <= old(self).opcode2 >> 3 <= 15) && old(self)@.operands_ready()
                && !old(self).pending_interrupt ==> final(self)@.ready_to_go_on(),
    {
        reveal(CpuState::ready_to_go_on);
        reveal(CpuState::sra_hl);
        if self.begin_modify_hl() {
            let (result, flags) = shift_right_arithmetic(self.mem_read[0]);
            self.finish_modify_hl(result, flags);
        }
    }

    pub fn sra(&mut self)
        requires
            old(self).mmu.wf(),
        ensures
            final(self)@ == old(self)@.sra(),
            final(self).mmu.wf(),
            old(self).opcode1 == 0xcb && source_field(old(self).opcode2) != 6
                && !old(self).pending_interrupt ==> final(self)@.ready_to_go_on(),
    {
        reveal(CpuState::ready_to_go_on);
        reveal(CpuState::sra);
        if self.cycles == 0 {
            let (result, flags) = shift_right_arithmetic(self.read_cb_operand());
            self.finish_modify_reg(result, flags);
        }
    }

    pub fn srl_hl(&mut self)
        requires
            old(self).mmu.wf(),
            old(self).cycles == 2 ==> old(self).mem_read@.len() >= 1,
        ensures
            final(self)@ == old(self)@.srl_hl(),
            final(self).mmu.wf(),
            old(self).opcode1 == 0xcb && source_field(old(self).opcode2) == 6
                && !(8 <= old(self).opcode2 >> 3 <= 15) && old(self)@.operands_ready()
                && !old(self).pending_interrupt ==> final(self)@.ready_to_go_on(),
    {
        reveal(CpuState::ready_to_go_on);
        reveal(CpuState::srl_hl);
        if self.begin_modify_hl() {
            let (result, flags) = shift_right(self.mem_read[0]);
            self.finish_modify_hl(result, flags);
        }
    }

    pub fn srl(&mut self)
        requires
            old(self).mmu.wf(),
        ensures
            final(self)@ == old(self)@.srl(),
            final(self).mmu.wf(),
            old(self).opcode1 == 0xcb && source_field(old(self).opcode2) != 6
                && !old(self).pending_interrupt ==> final(self)@.ready_to_go_on(),
    {
        reveal(CpuState::ready_to_go_on);
        reveal(CpuState::srl);
        if self.cycles == 0 {
            let (result, flags) = shift_right(self.read_cb_operand());
            self.finish_modify_reg(result, flags);
        }
    }

    pub fn swap_hl(&mut self)
        requires
            old(self).mmu.wf(),
            old(self).cycles == 2 ==> old(self).mem_read@.len() >= 1,
        ensures
            final(self)@ == old(self)@.swap_hl(),
            final(self).mmu.wf(),
            old(self).opcode1 == 0xcb && source_field(old(self).opcode2) == 6
                && !(8 <= old(self).opcode2 >> 3 <= 15) && old(self)@.operands_ready()
                && !old(self).pending_interrupt ==> final(self)@.ready_to_go_on(),
    {
        reveal(CpuState::ready_to_go_on);
        reveal(CpuState::swap_hl);
        if self.begin_modify_hl() {
            let (result, flags) = swap_nibbles(self.mem_read[0]);
            self.finish_modify_hl(result, flags);
        }
    }

    pub fn swap(&mut self)
        requires
            old(self).mmu.wf(),
        ensures
            final(self)@ == old(self)@.swap(),
            final(self).mmu.wf(),
            old(self).opcode1 == 0xcb && source_field(old(self).opcode2) != 6
                && !old(self).pending_interrupt ==> final(self)@.ready_to_go_on(),
    {
        reveal(CpuState::ready_to_go_on);
        reveal(CpuState::swap);
        if self.cycles == 0 {
            let (result, flags) = swap_nibbles(self.read_cb_operand());
            self.finish_modify_reg(result, flags);
        }
    }

    pub fn bit_hl(&mut self)
        requires
            old(self).mmu.wf(),
            old(self).cycles != 0 && old(self).cycles != 2 ==> old(self).mem_read@.len() >= 1,
        ensures
            final(self)@ == old(self)@.bit_hl(),
            final(self).mmu.wf(),
            old(self).opcode1 == 0xcb && source_field(old(self).opcode2) == 6
                && 8 <= old(self).opcode2 >> 3 <= 15 && old(self)@.operands_ready()
                && !old(self).pending_interrupt ==> final(self)@.ready_to_go_on(),
    {
        reveal(CpuState::ready_to_go_on);
        reveal(CpuState::bit_hl);
        match self.cycles {
            0 => self.cycles = 3,
            2 => {
                let mem_read = self.mmu.read_byte(self.registers.get_hl() as usize);
                self.mem_read.push(mem_read);
            },
            _ => {
                let mask = self.cb_mask();
                let result = self.mem_read[0] & mask;
                self.registers.f.z = result == 0;
                self.registers.f.n = false;
                self.registers.f.h = true;
            },
        }
    }

    pub fn bit(&mut self)
        requires
            old(self).mmu.wf(),
        ensures
            final(self)@ == old(self)@.bit(),
            final(self).mmu.wf(),
            old(self).opcode1 == 0xcb && source_field(old(self).opcode2) != 6
                && !old(self).pending_interrupt ==> final(self)@.ready_to_go_on(),
    {
        reveal(CpuState::ready_to_go_on);
        reveal(CpuState::bit);
        if self.cycles == 0 {
            let value = self.read_cb_operand();
            let mask = self.cb_mask();
            let result = value & mask;
            self.registers.f.z = result == 0;
            self.registers.f.n = false;
            self.registers.f.h = true;
            self.cycles = 2;
        }
    }

    pub fn res_hl(&mut self)
        requires
            old(self).mmu.wf(),
            old(self).cycles == 2 ==> old(self).mem_read@.len() >= 1,
        ensures
            final(self)@ == old(self)@.res_hl(),
            final(self).mmu.wf(),
            old(self).opcode1 == 0xcb && source_field(old(self).opcode2) == 6
                && !(8 <= old(self).opcode2 >> 3 <= 15) && old(self)@.operands_ready()
                && !old(self).pending_interrupt ==> final(self)@.ready_to_go_on(),
    {
        reveal(CpuState::ready_to_go_on);
        reveal(CpuState::res_hl);
        if self.begin_modify_hl() {
            let mask = !self.cb_mask();
            let result = self.mem_read[0] & mask;
            self.finish_modify_hl(result, self.registers.f);
        }
    }

    pub fn res(&mut self)
        requires
            old(self).mmu.wf(),
        ensures
            final(self)@ == old(self)@.res(),
            final(self).mmu.wf(),
            old(self).opcode1 == 0xcb && source_field(old(self).opcode2) != 6
                && !old(self).pending_interrupt ==> final(self)@.ready_to_go_on(),
    {
        reveal(CpuState::ready_to_go_on);
        reveal(CpuState::res);
        if self.cycles == 0 {
            let value = self.read_cb_operand();
            let mask = !self.cb_mask();
            self.finish_modify_reg(value & mask, self.registers.f);
        }
    }

    pub fn set_hl(&mut self)
        requires
            old(self).mmu.wf(),
            old(self).cycles == 2 ==> old(self).mem_read@.len() >= 1,
        ensures
            final(self)@ == old(self)@.set_hl(),
            final(self).mmu.wf(),
            old(self).opcode1 == 0xcb && source_field(old(self).opcode2) == 6
                && !(8 <= old(self).opcode2 >> 3 <= 15) && old(self)@.operands_ready()
                && !old(self).pending_interrupt ==> final(self)@.ready_to_go_on(),
    {
        reveal(CpuState::ready_to_go_on);
        reveal(CpuState::set_hl);
        if self.begin_modify_hl() {
            let mask = self.cb_mask();
            let result = self.mem_read[0] | mask;
            self.finish_modify_hl(result, self.registers.f);
        }
    }

    pub fn set(&mut self)
        requires
            old(self).mmu.wf(),
        ensures
            final(self)@ == old(self)@.set(),
            final(self).mmu.wf(),
            old(self).opcode1 == 0xcb && source_field(old(self).opcode2) != 6
                && !old(self).pending_interrupt ==> final(self)@.ready_to_go_on(),
    {
        reveal(CpuState::ready_to_go_on);
        reveal(CpuState::set);
        if self.cycles == 0 {
            let value = self.read_cb_operand();
            let mask = self.cb_mask();
            self.finish_modify_reg(value | mask, self.registers.f);
        }
    }
}

} // verus!
