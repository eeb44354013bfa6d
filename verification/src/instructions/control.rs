//! The stack, calls and returns, jumps, and the instructions that control
//! interrupts and the clock.

use vstd::prelude::*;
use crate::bits::{hi_byte, lo_byte, lemma_field_bounds};
use crate::cpu::{CPU, CpuState, next16};
use crate::instructions::load::{pair_field, condition_field, sign_extended, sign_extend};
use crate::interrupts::{InterruptController, InterruptState};
use crate::mmu::Mmu;
use crate::cycle::reads_operands;

verus! {

impl CpuState {
    /// Whether the condition in bits 4 and 3 of the opcode holds.
    pub open spec fn condition_met(self) -> bool {
        self.registers.condition(condition_field(self.opcode1))
    }

    /// The state with the master interrupt enable set to `state`.
    pub open spec fn with_interrupt_state(self, state: InterruptState) -> CpuState {
        CpuState {
            mmu: Mmu {
                interrupt_controller: InterruptController {
                    state,
                    ..self.mmu.interrupt_controller
                },
                ..self.mmu
            },
            ..self
        }
    }

    /// PUSH rr: four cycles; the high byte is pushed in the second and the
    /// low byte in the third. The fourth pair is AF.
    #[verifier::opaque]
    pub open spec fn push_reg16(self) -> CpuState {
        match self.cycles {
            0 => self.taking(4),
            3 => self.pushed(hi_byte(self.registers.reg16(pair_field(self.opcode1)))),
            2 => self.pushed(lo_byte(self.registers.reg16(pair_field(self.opcode1)))),
            _ => self,
        }
    }

    /// POP rr: three cycles; the low byte is popped in the first, the high
    /// byte in the second, and the pair is set in the third.
    #[verifier::opaque]
    pub open spec fn pop_reg16(self) -> CpuState {
        match self.cycles {
            0 => self.with_pop().taking(3),
            2 => self.with_pop(),
            _ => CpuState {
                registers: self.registers.with_reg16(pair_field(self.opcode1), self.operand16()),
                ..self
            },
        }
    }

    /// CALL a16: six cycles; the operand is read in the first two, the
    /// return address is pushed in the fourth and fifth, and the jump is
    /// made in the sixth.
    #[verifier::opaque]
    pub open spec fn call_a16(self) -> CpuState {
        match self.cycles {
            0 => self.with_operand().taking(6),
            5 => self.with_operand(),
            4 => self,
            3 => self.pushed(hi_byte(self.pc)),
            2 => self.pushed(lo_byte(self.pc)),
            _ => CpuState { pc: self.operand16(), ..self },
        }
    }

    /// The state of an instruction that skips its 16-bit operand because
    /// its condition does not hold: three cycles.
    pub open spec fn skip_a16(self) -> CpuState {
        match self.cycles {
            0 => self.with_fetch().taking(3),
            2 => self.with_fetch(),
            _ => self,
        }
    }

    /// CALL cc,a16: as CALL if the condition holds, else three cycles.
    #[verifier::opaque]
    pub open spec fn call_cc_a16(self) -> CpuState {
        if self.condition_met() {
            self.call_a16()
        } else {
            self.skip_a16()
        }
    }

    /// RET: four cycles; the address is popped in the first two and the
    /// jump is made in the third.
    #[verifier::opaque]
    pub open spec fn ret(self) -> CpuState {
        match self.cycles {
            0 => self.with_pop().taking(4),
            3 => self.with_pop(),
            2 => CpuState { pc: self.operand16(), ..self },
            _ => self,
        }
    }

    /// RET cc: five cycles if the condition holds, two if not.
    #[verifier::opaque]
    pub open spec fn ret_cc(self) -> CpuState {
        if self.condition_met() {
            match self.cycles {
                0 => self.taking(5),
                4 => self.with_pop(),
                3 => self.with_pop(),
                2 => CpuState { pc: self.operand16(), ..self },
                _ => self,
            }
        } else if self.cycles == 0 {
            self.taking(2)
        } else {
            self
        }
    }

    /// RETI: RET, with interrupts enabled at once.
    #[verifier::opaque]
    pub open spec fn reti(self) -> CpuState {
        self.ret().with_interrupt_state(InterruptState::Enabled)
    }

    /// JR r8: three cycles; the offset counts from the address behind the
    /// instruction, modulo 65536.
    #[verifier::opaque]
    pub open spec fn jump_r8(self) -> CpuState {
        if self.cycles == 0 {
            CpuState {
                pc: ((next16(self.pc) + sign_extended(self.fetched())) % 65536) as u16,
                cycles: 3,
                ..self
            }
        } else {
            self
        }
    }

    /// JR cc,r8: three cycles if the condition holds, two if not.
    #[verifier::opaque]
    pub open spec fn jump_cc_r8(self) -> CpuState {
        if self.cycles != 0 {
            self
        } else if self.condition_met() {
            self.jump_r8()
        } else {
            self.with_fetch().taking(2)
        }
    }

    /// JP a16: four cycles; the jump is made in the third.
    #[verifier::opaque]
    pub open spec fn jump_a16(self) -> CpuState {
        match self.cycles {
            0 => self.with_operand().taking(4),
            3 => self.with_operand(),
            2 => CpuState { pc: self.operand16(), ..self },
            _ => self,
        }
    }

    /// JP cc,a16: as JP if the condition holds, else three cycles.
    #[verifier::opaque]
    pub open spec fn jump_cc_a16(self) -> CpuState {
        if self.condition_met() {
            self.jump_a16()
        } else {
            self.skip_a16()
        }
    }

    /// JP (HL): one cycle.
    #[verifier::opaque]
    pub open spec fn jump_hl(self) -> CpuState {
        CpuState { pc: self.registers.hl(), cycles: 1, ..self }
    }

    /// EI: one cycle; interrupts are enabled after the next instruction.
    #[verifier::opaque]
    pub open spec fn enable_interrupts(self) -> CpuState {
        (if self.mmu.interrupt_controller.state == InterruptState::Disabled {
            self.with_interrupt_state(InterruptState::Scheduled)
        } else {
            self
        }).taking(1)
    }

    /// DI: one cycle; interrupts are disabled at once.
    #[verifier::opaque]
    pub open spec fn disable_interrupts(self) -> CpuState {
        self.with_interrupt_state(InterruptState::Disabled).taking(1)
    }

    /// RST n: four cycles; the return address is pushed and the jump to
    /// the address in bits 5 to 3 of the opcode is made in the first.
    #[verifier::opaque]
    pub open spec fn rst(self) -> CpuState {
        if self.cycles == 0 {
            CpuState {
                pc: (self.opcode1 & 0x38) as u16,
                cycles: 4,
                ..self.pushed(hi_byte(self.pc)).pushed(lo_byte(self.pc))
            }
        } else {
            self
        }
    }

    /// HALT: one cycle; the CPU rests until an interrupt is pending.
    #[verifier::opaque]
    pub open spec fn halt(self) -> CpuState {
        CpuState { halt: true, cycles: 1, ..self }
    }

    /// STOP: one cycle; switches the speed if the switch is armed, and
    /// halts the CPU if it is not.
    #[verifier::opaque]
    pub open spec fn stop(self) -> CpuState {
        if self.mmu.prepare_speed_switch {
            CpuState {
                mmu: Mmu {
                    double_speed: !self.mmu.double_speed,
                    prepare_speed_switch: false,
                    ..self.mmu
                },
                cycles: 1,
                ..self
            }
        } else {
            CpuState { halt: true, cycles: 1, ..self }
        }
    }
}

impl CPU {
    /// Whether the condition in bits 4 and 3 of the opcode holds.
    fn condition(&self) -> (r: bool)
        ensures
            r == self@.condition_met(),
    {
        proof {
            lemma_field_bounds(self.opcode1);
        }
        let condition_id = (self.opcode1 & 0x18) >> 3;
        self.registers.get_condition_by_id(condition_id)
    }

    /// The register pair that bits 5 and 4 of the opcode name, AF being the
    /// fourth.
    fn stack_pair(&self) -> (r: u16)
        ensures
            r == self.registers.reg16(pair_field(self.opcode1)),
    {
        proof {
            lemma_field_bounds(self.opcode1);
        }
        let reg_id = (self.opcode1 & 0x30) >> 4;
        self.registers.get_reg16_by_id(reg_id)
    }

    fn set_interrupt_state(&mut self, state: InterruptState)
        requires
            old(self).mmu.wf(),
        ensures
            final(self)@ == old(self)@.with_interrupt_state(state),
            final(self).mmu.wf(),
    {
        self.mmu.interrupt_controller.state = state;
    }

    fn skip_operand(&mut self)
        requires
            old(self).mmu.wf(),
        ensures
            final(self)@ == old(self)@.skip_a16(),
            final(self).mmu.wf(),
    {
        match self.cycles {
            0 => {
                self.cycles = 3;
                let _ = self.next_byte();
            },
            2 => {
                let _ = self.next_byte();
            },
            _ => {},
        }
    }

    pub fn push_reg16(&mut self)
        requires
            old(self).mmu.wf(),
        ensures
            final(self)@ == old(self)@.push_reg16(),
            final(self).mmu.wf(),
            !reads_operands(old(self).opcode1) && !old(self).pending_interrupt
                ==> final(self)@.ready_to_go_on(),
    {
        reveal(CpuState::ready_to_go_on);
        reveal(CpuState::push_reg16);
        match self.cycles {
            0 => self.cycles = 4,
            3 => {
                let value = self.stack_pair();
                self.push_stack(((value & 0xff00) >> 8) as u8);
            },
            2 => {
                let value = self.stack_pair();
                self.push_stack(value as u8);
            },
            _ => {},
        }
    }

    pub fn pop_reg16(&mut self)
        requires
            old(self).mmu.wf(),
            old(self).cycles != 0 && old(self).cycles != 2 ==> old(self).mem_read@.len() >= 2,
        ensures
            final(self)@ == old(self)@.pop_reg16(),
            final(self).mmu.wf(),
            (old(self).opcode1 == 0xc1 || old(self).opcode1 == 0xd1 || old(self).opcode1 == 0xe1
                || old(self).opcode1 == 0xf1)
                && old(self)@.operands_ready() && !old(self).pending_interrupt
                ==> final(self)@.ready_to_go_on(),
    {
        reveal(CpuState::ready_to_go_on);
        reveal(CpuState::pop_reg16);
        match self.cycles {
            0 => {
                self.pop_operand();
                self.cycles = 3;
            },
            2 => {
                self.pop_operand();
            },
            _ => {
                proof {
                    lemma_field_bounds(self.opcode1);
                }
                let reg_id = (self.opcode1 & 0x30) >> 4;
                let value = self.operand_word();
                self.registers.set_reg16_by_id(reg_id, value);
            },
        }
    }

    pub fn call_a16(&mut self)
        requires
            old(self).mmu.wf(),
            old(self).cycles == 1 || old(self).cycles > 5 ==> old(self).mem_read@.len() >= 2,
        ensures
            final(self)@ == old(self)@.call_a16(),
            final(self).mmu.wf(),
            old(self).opcode1 == 0xcd && old(self)@.operands_ready()
                && !old(self).pending_interrupt ==> final(self)@.ready_to_go_on(),
    {
        reveal(CpuState::ready_to_go_on);
        reveal(CpuState::call_a16);
        match self.cycles {
            0 => {
                self.cycles = 6;
                self.read_operand();
            },
            5 => {
                self.read_operand();
            },
            4 => {},
            3 => {
                self.push_stack(((self.pc & 0xff00) >> 8) as u8);
            },
            2 => {
                self.push_stack(self.pc as u8);
            },
            _ => {
                self.pc = self.operand_word();
            },
        }
    }

    pub fn call_cc_a16(&mut self)
        requires
            old(self).mmu.wf(),
            old(self)@.condition_met() && (old(self).cycles == 1 || old(self).cycles > 5) ==> old(
                self,
            ).mem_read@.len() >= 2,
        ensures
            final(self)@ == old(self)@.call_cc_a16(),
            final(self).mmu.wf(),
            (old(self).opcode1 == 0xc4 || old(self).opcode1 == 0xcc || old(self).opcode1 == 0xd4
                || old(self).opcode1 == 0xdc)
                && old(self)@.operands_ready() && !old(self).pending_interrupt
                ==> final(self)@.ready_to_go_on(),
    {
        reveal(CpuState::ready_to_go_on);
        reveal(CpuState::call_cc_a16);
        reveal(CpuState::call_a16);
        if self.condition() {
            self.call_a16();
        } else {
            self.skip_operand();
        }
    }

    pub fn ret(&mut self)
        requires
            old(self).mmu.wf(),
            old(self).cycles == 2 ==> old(self).mem_read@.len() >= 2,
        ensures
            final(self)@ == old(self)@.ret(),
            final(self).mmu.wf(),
            old(self).opcode1 == 0xc9 && old(self)@.operands_ready()
                && !old(self).pending_interrupt ==> final(self)@.ready_to_go_on(),
    {
        reveal(CpuState::ready_to_go_on);
        reveal(CpuState::ret);
        match self.cycles {
            0 => {
                self.pop_operand();
                self.cycles = 4;
            },
            3 => {
                self.pop_operand();
            },
            2 => {
                self.pc = self.operand_word();
            },
            _ => {},
        }
    }

    pub fn ret_cc(&mut self)
        requires
            old(self).mmu.wf(),
            old(self)@.condition_met() && old(self).cycles == 2 ==> old(self).mem_read@.len() >= 2,
        ensures
            final(self)@ == old(self)@.ret_cc(),
            final(self).mmu.wf(),
            (old(self).opcode1 == 0xc0 || old(self).opcode1 == 0xc8 || old(self).opcode1 == 0xd0
                || old(self).opcode1 == 0xd8)
                && old(self)@.operands_ready() && !old(self).pending_interrupt
                ==> final(self)@.ready_to_go_on(),
    {
        reveal(CpuState::ready_to_go_on);
        reveal(CpuState::ret_cc);
        if self.condition() {
            match self.cycles {
                0 => self.cycles = 5,
                4 => {
                    self.pop_operand();
                },
                3 => {
                    self.pop_operand();
                },
                2 => {
                    self.pc = self.operand_word();
                },
                _ => {},
            }
        } else if self.cycles == 0 {
            self.cycles = 2;
        }
    }

    pub fn reti(&mut self)
        requires
            old(self).mmu.wf(),
            old(self).cycles == 2 ==> old(self).mem_read@.len() >= 2,
        ensures
            final(self)@ == old(self)@.reti(),
            final(self).mmu.wf(),
            old(self).opcode1 == 0xd9 && old(self)@.operands_ready()
                && !old(self).pending_interrupt ==> final(self)@.ready_to_go_on(),
    {
        reveal(CpuState::ready_to_go_on);
        reveal(CpuState::reti);
        reveal(CpuState::ret);
        self.ret();
        self.set_interrupt_state(InterruptState::Enabled);
    }

    pub fn jump_cc_r8(&mut self)
        requires
            old(self).mmu.wf(),
        ensures
            final(self)@ == old(self)@.jump_cc_r8(),
            final(self).mmu.wf(),
            !reads_operands(old(self).opcode1) && !old(self).pending_interrupt
                ==> final(self)@.ready_to_go_on(),
    {
        reveal(CpuState::ready_to_go_on);
        reveal(CpuState::jump_cc_r8);
        reveal(CpuState::jump_r8);
        if self.cycles == 0 {
            if self.condition() {
                self.jump_r8();
                self.cycles = 3;
            } else {
                self.next_byte();
                self.cycles = 2;
            }
        }
    }

    pub fn jump_r8(&mut self)
        requires
            old(self).mmu.wf(),
        ensures
            final(self)@ == old(self)@.jump_r8(),
            final(self).mmu.wf(),
            !reads_operands(old(self).opcode1) && !old(self).pending_interrupt
                ==> final(self)@.ready_to_go_on(),
    {
        reveal(CpuState::ready_to_go_on);
        reveal(CpuState::jump_r8);
        if self.cycles == 0 {
            let offset = sign_extend(self.next_byte());
            self.pc = self.pc.wrapping_add(offset);
            self.cycles = 3;
        }
    }

    pub fn jump_cc_a16(&mut self)
        requires
            old(self).mmu.wf(),
            old(self)@.condition_met() && old(self).cycles == 2 ==> old(self).mem_read@.len() >= 2,
        ensures
            final(self)@ == old(self)@.jump_cc_a16(),
            final(self).mmu.wf(),
            (old(self).opcode1 == 0xc2 || old(self).opcode1 == 0xca || old(self).opcode1 == 0xd2
                || old(self).opcode1 == 0xda)
                && old(self)@.operands_ready() && !old(self).pending_interrupt
                ==> final(self)@.ready_to_go_on(),
    {
        reveal(CpuState::ready_to_go_on);
        reveal(CpuState::jump_cc_a16);
        reveal(CpuState::jump_a16);
        if self.condition() {
            self.jump_a16();
        } else {
            self.skip_operand();
        }
    }

    pub fn jump_a16(&mut self)
        requires
            old(self).mmu.wf(),
            old(self).cycles == 2 ==> old(self).mem_read@.len() >= 2,
        ensures
            final(self)@ == old(self)@.jump_a16(),
            final(self).mmu.wf(),
            old(self).opcode1 == 0xc3 && old(self)@.operands_ready()
                && !old(self).pending_interrupt ==> final(self)@.ready_to_go_on(),
    {
        reveal(CpuState::ready_to_go_on);
        reveal(CpuState::jump_a16);
        match self.cycles {
            0 => {
                self.read_operand();
                self.cycles = 4;
            },
            3 => {
                self.read_operand();
            },
            2 => {
                self.pc = self.operand_word();
            },
            _ => {},
        }
    }

    pub fn jump_hl(&mut self)
        requires
            old(self).mmu.wf(),
        ensures
            final(self)@ == old(self)@.jump_hl(),
            final(self).mmu.wf(),
            !reads_operands(old(self).opcode1) && !old(self).pending_interrupt
                ==> final(self)@.ready_to_go_on(),
    {
        reveal(CpuState::ready_to_go_on);
        reveal(CpuState::jump_hl);
        self.pc = self.registers.get_hl();
        self.cycles = 1;
    }

    pub fn enable_interrupts(&mut self)
        requires
            old(self).mmu.wf(),
        ensures
            final(self)@ == old(self)@.enable_interrupts(),
            final(self).mmu.wf(),
            !reads_operands(old(self).opcode1) && !old(self).pending_interrupt
                ==> final(self)@.ready_to_go_on(),
    {
        reveal(CpuState::ready_to_go_on);
        reveal(CpuState::enable_interrupts);
        if self.mmu.interrupt_controller.state == InterruptState::Disabled {
            self.set_interrupt_state(InterruptState::Scheduled);
        }
        self.cycles = 1;
    }

    pub fn disable_interrupts(&mut self)
        requires
            old(self).mmu.wf(),
        ensures
            final(self)@ == old(self)@.disable_interrupts(),
            final(self).mmu.wf(),
            !reads_operands(old(self).opcode1) && !old(self).pending_interrupt
                ==> final(self)@.ready_to_go_on(),
    {
        reveal(CpuState::ready_to_go_on);
        reveal(CpuState::disable_interrupts);
        self.set_interrupt_state(InterruptState::Disabled);
        self.cycles = 1;
    }

    pub fn rst(&mut self)
        requires
            old(self).mmu.wf(),
        ensures
            final(self)@ == old(self)@.rst(),
            final(self).mmu.wf(),
            !reads_operands(old(self).opcode1) && !old(self).pending_interrupt
                ==> final(self)@.ready_to_go_on(),
    {
        reveal(CpuState::ready_to_go_on);
        reveal(CpuState::rst);
        if self.cycles == 0 {
            let dest = (self.opcode1 & 0x38) as u16;
            let pc_h = ((self.pc & 0xff00) >> 8) as u8;
            let pc_l = self.pc as u8;
            self.push_stack(pc_h);
            self.push_stack(pc_l);
            self.pc = dest;
            self.cycles = 4;
        }
    }

    pub fn halt(&mut self)
        requires
            old(self).mmu.wf(),
        ensures
            final(self)@ == old(self)@.halt(),
            final(self).mmu.wf(),
            !reads_operands(old(self).opcode1) && !old(self).pending_interrupt
                ==> final(self)@.ready_to_go_on(),
    {
        reveal(CpuState::ready_to_go_on);
        reveal(CpuState::halt);
        self.halt = true;
        self.cycles = 1;
    }

    pub fn stop(&mut self)
        requires
            old(self).mmu.wf(),
        ensures
            final(self)@ == old(self)@.stop(),
            final(self).mmu.wf(),
            !reads_operands(old(self).opcode1) && !old(self).pending_interrupt
                ==> final(self)@.ready_to_go_on(),
    {
        reveal(CpuState::ready_to_go_on);
        reveal(CpuState::stop);
        if self.mmu.prepare_speed_switch {
            self.mmu.switch_speed();
        } else {
            self.halt = true;
        }
        self.cycles = 1;
    }
}

} // verus!
