//! The machine cycle of the CPU: it carries out one cycle of the
//! instruction in the opcode latches, serves interrupts, and fetches the
//! next instruction.

use vstd::prelude::*;
use crate::bits::{hi_byte, lo_byte, lemma_field_bounds};
use crate::cpu::{CPU, CpuState, CpuError, next16};
use crate::instructions::load::source_field;
use crate::interrupts::{InterruptState, vector_of};
use crate::mmu::Mmu;

verus! {

/// Whether a byte is no instruction of the first opcode page.
pub open spec fn invalid_opcode(opcode: u8) -> bool {
    opcode == 0xd3 || opcode == 0xdb || opcode == 0xdd || opcode == 0xe3 || opcode == 0xe4
        || opcode == 0xeb || opcode == 0xec || opcode == 0xed || opcode == 0xf4 || opcode == 0xfc
        || opcode == 0xfd
}

/// The opcodes that load an immediate byte into a register name a
/// register, not memory.
proof fn lemma_register_loads(op: u8)
    requires
        op == 0x06 || op == 0x0e || op == 0x16 || op == 0x1e || op == 0x26 || op == 0x2e || op
            == 0x3e,
    ensures
        crate::instructions::load::dest_field(op) != 6,
{
    assert((op & 0x38) >> 3 != 6) by (bit_vector)
        requires
            op == 0x06 || op == 0x0e || op == 0x16 || op == 0x1e || op == 0x26 || op == 0x2e || op
                == 0x3e,
    ;
}

impl CpuState {
    /// The number of scratch bytes that the instruction in the opcode
    /// latches must find when it is entered with `cycles` cycles left, so
    /// that it and every later cycle of it finds the operand bytes it uses.
    pub open spec fn operands_needed(self) -> nat {
        let c = self.cycles;
        let op = self.opcode1;
        if c == 0 || !reads_operands(op) {
            0
        } else if op == 0x08 {
            if c == 1 {
                0
            } else if c <= 3 {
                2
            } else {
                1
            }
        } else if op == 0xf8 || op == 0xe0 || op == 0x36 || op == 0x34 || op == 0x35 {
            if c >= 2 {
                1
            } else {
                0
            }
        } else if op == 0xe8 {
            if c >= 3 {
                1
            } else {
                0
            }
        } else if op == 0xf0 || op == 0x01 || op == 0x11 || op == 0x21 || op == 0x31 || op == 0xc1
            || op == 0xd1 || op == 0xe1 || op == 0xf1 {
            if c == 2 {
                1
            } else {
                2
            }
        } else if op == 0xfa {
            if c == 2 {
                2
            } else if c == 3 {
                1
            } else {
                3
            }
        } else if op == 0xcd || ((op == 0xc4 || op == 0xcc || op == 0xd4 || op == 0xdc)
            && self.condition_met()) {
            if c == 5 {
                1
            } else {
                2
            }
        } else if op == 0xea || op == 0xc9 || op == 0xd9 || op == 0xc3 || ((op == 0xc2 || op == 0xca
            || op == 0xd2 || op == 0xda) && self.condition_met()) {
            if c == 1 {
                0
            } else if c == 2 {
                2
            } else {
                1
            }
        } else if (op == 0xc0 || op == 0xc8 || op == 0xd0 || op == 0xd8) && self.condition_met() {
            if c == 2 {
                2
            } else if c == 3 {
                1
            } else {
                0
            }
        } else if op == 0xcb && source_field(self.opcode2) == 6 {
            if 8 <= self.opcode2 >> 3 <= 15 {
                if c == 2 {
                    0
                } else {
                    1
                }
            } else {
                if c == 2 {
                    1
                } else {
                    0
                }
            }
        } else {
            0
        }
    }

    /// Whether the scratch bytes are enough for the instruction in the
    /// latches. While an interrupt is being served no instruction runs.
    pub open spec fn operands_ready(self) -> bool {
        self.pending_interrupt || self.mem_read.len() >= self.operands_needed()
    }

    /// The state with one cycle less left.
    pub open spec fn ticked(self) -> CpuState {
        CpuState {
            cycles: if self.cycles == 0 {
                0
            } else {
                (self.cycles - 1) as u8
            },
            ..self
        }
    }

    /// Whether the state can enter its next cycle once this one is counted:
    /// no interrupt sequence has started, and the scratch bytes suffice.
    #[verifier::opaque]
    pub open spec fn ready_to_go_on(self) -> bool {
        !self.pending_interrupt && (self.ticked().cycles == 0 || self.ticked().operands_ready())
    }

    /// Whether the CPU is stopped by a DMA transfer.
    pub open spec fn dma_halted(self) -> bool {
        self.mmu.dma_config.halts_cpu(self.mmu.ppu.lcd_status.mode)
    }

    /// Whether the CPU cannot go on: it is to carry out a cycle of an
    /// instruction, and the opcode latch holds none.
    pub open spec fn stuck(self) -> bool {
        !self.dma_halted() && !self.pending_interrupt && invalid_opcode(self.opcode1)
    }

    /// The first half of the interrupt poll. A halted CPU whose interrupts
    /// are not enabled wakes up when any enabled interrupt is requested. In
    /// every other case the interrupt controller is polled; if it serves a
    /// request, the interrupt sequence starts.
    pub open spec fn acknowledged(self) -> CpuState {
        let ic = self.mmu.interrupt_controller;
        if self.halt && ic.state != InterruptState::Enabled {
            CpuState { halt: ic.pending() == 0, pending_interrupt: false, ..self }
        } else {
            let polled = CpuState {
                mmu: Mmu { interrupt_controller: ic.after_poll(), ..self.mmu },
                ..self
            };
            match ic.served() {
                Some(bit) => CpuState {
                    pending_interrupt: true,
                    halt: false,
                    interrupt_dest: vector_of(bit) as u16,
                    ..polled
                },
                None => polled,
            }
        }
    }

    /// One cycle of the interrupt sequence, which takes five: two idle
    /// cycles, the push of the high and of the low byte of the program
    /// counter, and the jump to the vector.
    pub open spec fn interrupt_step(self) -> CpuState {
        if !self.pending_interrupt {
            self
        } else {
            match self.cycles {
                0 => self.taking(5),
                4 => self,
                3 => self.pushed(hi_byte(self.pc)),
                2 => self.pushed(lo_byte(self.pc)),
                _ => CpuState { pc: self.interrupt_dest, ..self },
            }
        }
    }

    /// The state after the interrupt poll.
    pub open spec fn after_interrupt_poll(self) -> CpuState {
        self.acknowledged().interrupt_step()
    }

    /// The state after the cycle of the instruction, if one is running,
    /// with the cycle counted. When no cycle is left, the scratch bytes are
    /// dropped and an interrupt sequence is over.
    pub open spec fn counted(self) -> CpuState {
        let run = if self.pending_interrupt {
            self
        } else {
            self.step()
        };
        if run.ticked().cycles == 0 {
            CpuState { mem_read: Seq::empty(), pending_interrupt: false, ..run.ticked() }
        } else {
            run.ticked()
        }
    }

    /// The state with the next opcode fetched into the first latch.
    pub open spec fn with_opcode_fetch(self) -> CpuState {
        CpuState { opcode1: self.fetched(), ..self.with_fetch() }
    }

    /// The state after one machine cycle, for a CPU that is not stuck. A
    /// CPU stopped by DMA does nothing. Otherwise the instruction advances
    /// by a cycle; between instructions and during an interrupt sequence
    /// interrupts are polled; and a CPU that is neither halted nor serving
    /// an interrupt fetches its next opcode when no cycle is left.
    #[verifier::opaque]
    pub open spec fn after_cycle(self) -> CpuState {
        if self.dma_halted() {
            self
        } else {
            let c = self.counted();
            if c.cycles == 0 || c.pending_interrupt {
                let p = c.after_interrupt_poll();
                if p.pending_interrupt || p.halt {
                    p
                } else if p.cycles == 0 {
                    p.with_opcode_fetch()
                } else {
                    p
                }
            } else {
                c
            }
        }
    }

    /// The state after one cycle of an instruction with an opcode below
    /// 0x40.
    #[verifier::opaque]
    pub open spec fn step_low(self) -> CpuState {
        match self.opcode1 {
            0x00 => self.taking(1),
            0x01 | 0x11 | 0x21 | 0x31 => self.ld_reg16_d16(),
            0x02 => self.ld_bc_a(),
            0x03 | 0x13 | 0x23 | 0x33 => self.inc_reg16(),
            0x04 | 0x0c | 0x14 | 0x1c | 0x24 | 0x2c | 0x3c => self.inc_reg8(),
            0x05 | 0x0d | 0x15 | 0x1d | 0x25 | 0x2d | 0x3d => self.dec_reg8(),
            0x06 | 0x0e | 0x16 | 0x1e | 0x26 | 0x2e | 0x3e => self.ld_reg_d8(),
            0x07 => self.rlc_a(),
            0x08 => self.ld_a16_sp(),
            0x09 | 0x19 | 0x29 | 0x39 => self.add_hl_reg16(),
            0x0a => self.ld_a_bc(),
            0x0b | 0x1b | 0x2b | 0x3b => self.dec_reg16(),
            0x0f => self.rrc_a(),
            0x10 => self.stop(),
            0x12 => self.ld_de_a(),
            0x17 => self.rl_a(),
            0x18 => self.jump_r8(),
            0x1a => self.ld_a_de(),
            0x1f => self.rr_a(),
            0x20 | 0x28 | 0x30 | 0x38 => self.jump_cc_r8(),
            0x22 => self.ld_hli_a(),
            0x27 => self.daa(),
            0x2a => self.ld_a_hli(),
            0x2f => self.cpl(),
            0x32 => self.ld_hld_a(),
            0x34 => self.inc_hl(),
            0x35 => self.dec_hl(),
            0x36 => self.ld_hl_d8(),
            0x37 => self.scf(),
            0x3a => self.ld_a_hld(),
            _ => self.ccf(),
        }
    }

    /// The state after one cycle of an instruction with an opcode from
    /// 0x40 to 0xbf: the register loads, HALT, and the arithmetic on the
    /// accumulator.
    #[verifier::opaque]
    pub open spec fn step_middle(self) -> CpuState {
        let op = self.opcode1;
        if op == 0x76 {
            self.halt()
        } else if op < 0x80 {
            self.ld_reg_reg()
        } else if op < 0x88 {
            self.add()
        } else if op < 0x90 {
            self.adc()
        } else if op < 0x98 {
            self.sub()
        } else if op < 0xa0 {
            self.sbc()
        } else if op < 0xa8 {
            self.and_reg()
        } else if op < 0xb0 {
            self.xor_reg()
        } else if op < 0xb8 {
            self.or_reg()
        } else {
            self.cp_reg()
        }
    }

    /// The state after one cycle of an instruction of the second opcode
    /// page. The second opcode is fetched in the first cycle; its bits 7 to
    /// 3 name the operation and its bits 2 to 0 the operand.
    #[verifier::opaque]
    pub open spec fn step_prefixed(self) -> CpuState {
        let s = if self.cycles == 0 {
            CpuState { opcode2: self.fetched(), ..self.with_fetch() }
        } else {
            self
        };
        let on_memory = source_field(s.opcode2) == 6;
        match s.opcode2 >> 3 {
            0 => if on_memory {
                s.rlc_hl()
            } else {
                s.rlc()
            },
            1 => if on_memory {
                s.rrc_hl()
            } else {
                s.rrc()
            },
            2 => if on_memory {
                s.rl_hl()
            } else {
                s.rl()
            },
            3 => if on_memory {
                s.rr_hl()
            } else {
                s.rr()
            },
            4 => if on_memory {
                s.sla_hl()
            } else {
                s.sla()
            },
            5 => if on_memory {
                s.sra_hl()
            } else {
                s.sra()
            },
            6 => if on_memory {
                s.swap_hl()
            } else {
                s.swap()
            },
            7 => if on_memory {
                s.srl_hl()
            } else {
                s.srl()
            },
            8 | 9 | 10 | 11 | 12 | 13 | 14 | 15 => if on_memory {
                s.bit_hl()
            } else {
                s.bit()
            },
            16 | 17 | 18 | 19 | 20 | 21 | 22 | 23 => if on_memory {
                s.res_hl()
            } else {
                s.res()
            },
            _ => if on_memory {
                s.set_hl()
            } else {
                s.set()
            },
        }
    }

    /// The state after one cycle of an instruction with an opcode from
    /// 0xc0 up that is no prefix.
    #[verifier::opaque]
    pub open spec fn step_high(self) -> CpuState {
        match self.opcode1 {
            0xc0 | 0xc8 | 0xd0 | 0xd8 => self.ret_cc(),
            0xc1 | 0xd1 | 0xe1 | 0xf1 => self.pop_reg16(),
            0xc2 | 0xca | 0xd2 | 0xda => self.jump_cc_a16(),
            0xc3 => self.jump_a16(),
            0xc4 | 0xcc | 0xd4 | 0xdc => self.call_cc_a16(),
            0xc5 | 0xd5 | 0xe5 | 0xf5 => self.push_reg16(),
            0xc6 => self.add_d8(),
            0xc7 | 0xcf | 0xd7 | 0xdf | 0xe7 | 0xef | 0xf7 | 0xff => self.rst(),
            0xc9 => self.ret(),
            0xcd => self.call_a16(),
            0xce => self.adc_d8(),
            0xd6 => self.sub_d8(),
            0xd9 => self.reti(),
            0xde => self.sbc_d8(),
            0xe0 => self.ld_a8_a(),
            0xe2 => self.ld_ff_c_a(),
            0xe6 => self.and_d8(),
            0xe8 => self.add_sp_r8(),
            0xe9 => self.jump_hl(),
            0xea => self.ld_a16_a(),
            0xee => self.xor_d8(),
            0xf0 => self.ld_a_a8(),
            0xf2 => self.ld_a_ff_c(),
            0xf3 => self.disable_interrupts(),
            0xf6 => self.or_d8(),
            0xf8 => self.ldhl_sp_r8(),
            0xf9 => self.ld_sp_hl(),
            0xfa => self.ld_a_a16(),
            0xfb => self.enable_interrupts(),
            _ => self.cp_d8(),
        }
    }

    /// The state after one cycle of the instruction in the opcode latches.
    pub open spec fn step(self) -> CpuState {
        if self.opcode1 < 0x40 {
            self.step_low()
        } else if self.opcode1 < 0xc0 {
            self.step_middle()
        } else if self.opcode1 == 0xcb {
            self.step_prefixed()
        } else {
            self.step_high()
        }
    }
}

/// Whether an instruction of the first opcode page reads scratch bytes.
pub open spec fn reads_operands(op: u8) -> bool {
    op == 0x08 || op == 0xf8 || op == 0xe0 || op == 0x36 || op == 0x34 || op == 0x35 || op == 0xe8
        || op == 0xf0 || op == 0x01 || op == 0x11 || op == 0x21 || op == 0x31 || op == 0xc1 || op
        == 0xd1 || op == 0xe1 || op == 0xf1 || op == 0xfa || op == 0xcd || op == 0xc4 || op == 0xcc
        || op == 0xd4 || op == 0xdc || op == 0xea || op == 0xc9 || op == 0xd9 || op == 0xc3 || op
        == 0xc2 || op == 0xca || op == 0xd2 || op == 0xda || op == 0xc0 || op == 0xc8 || op == 0xd0
        || op == 0xd8 || op == 0xcb
}

impl CPU {
    /// The operand bytes suffice for the instruction in the latches, the
    /// memory map is well formed, and a CPU that serves an interrupt is not
    /// halted.
    pub open spec fn wf(&self) -> bool {
        &&& self.mmu.wf()
        &&& self@.operands_ready()
        &&& !(self.pending_interrupt && self.halt)
    }

    /// NOP: one cycle.
    fn nop(&mut self)
        ensures
            final(self)@ == old(self)@.taking(1),
            final(self).mmu == old(self).mmu,
            !reads_operands(old(self).opcode1) && !old(self).pending_interrupt
                ==> final(self)@.ready_to_go_on(),
    {
        reveal(CpuState::ready_to_go_on);
        self.cycles = 1;
    }

    fn execute_low(&mut self)
        requires
            old(self).mmu.wf(),
            old(self)@.operands_ready(),
            !old(self).pending_interrupt,
            old(self).opcode1 < 0x40,
        ensures
            final(self)@ == old(self)@.step_low(),
            final(self).mmu.wf(),
            final(self)@.ready_to_go_on(),
    {
        reveal(CpuState::step_low);
        match self.opcode1 {
            0x00 => {
                self.nop();
            },
            0x01 | 0x11 | 0x21 | 0x31 => {
                self.ld_reg16_d16();
            },
            0x02 => {
                self.ld_bc_a();
            },
            0x03 | 0x13 | 0x23 | 0x33 => {
                self.inc_reg16();
            },
            0x04 | 0x0c | 0x14 | 0x1c | 0x24 | 0x2c | 0x3c => {
                self.inc_reg8();
            },
            0x05 | 0x0d | 0x15 | 0x1d | 0x25 | 0x2d | 0x3d => {
                self.dec_reg8();
            },
            0x06 | 0x0e | 0x16 | 0x1e | 0x26 | 0x2e | 0x3e => {
                proof {
                    lemma_register_loads(self.opcode1);
                }
                self.ld_reg_d8();
            },
            0x07 => {
                self.rlc_a();
            },
            0x08 => {
                self.ld_a16_sp();
            },
            0x09 | 0x19 | 0x29 | 0x39 => {
                self.add_hl_reg16();
            },
            0x0a => {
                self.ld_a_bc();
            },
            0x0b | 0x1b | 0x2b | 0x3b => {
                self.dec_reg16();
            },
            0x0f => {
                self.rrc_a();
            },
            0x10 => {
                self.stop();
            },
            0x12 => {
                self.ld_de_a();
            },
            0x17 => {
                self.rl_a();
            },
            0x18 => {
                self.jump_r8();
            },
            0x1a => {
                self.ld_a_de();
            },
            0x1f => {
                self.rr_a();
            },
            0x20 | 0x28 | 0x30 | 0x38 => {
                self.jump_cc_r8();
            },
            0x22 => {
                self.ld_hli_a();
            },
            0x27 => {
                self.daa();
            },
            0x2a => {
                self.ld_a_hli();
            },
            0x2f => {
                self.cpl();
            },
            0x32 => {
                self.ld_hld_a();
            },
            0x34 => {
                self.inc_hl();
            },
            0x35 => {
                self.dec_hl();
            },
            0x36 => {
                self.ld_hl_d8();
            },
            0x37 => {
                self.scf();
            },
            0x3a => {
                self.ld_a_hld();
            },
            _ => {
                self.ccf();
            },
        }
    }

    fn execute_middle(&mut self)
        requires
            old(self).mmu.wf(),
            old(self)@.operands_ready(),
            !old(self).pending_interrupt,
            0x40 <= old(self).opcode1 < 0xc0,
        ensures
            final(self)@ == old(self)@.step_middle(),
            final(self).mmu.wf(),
            final(self)@.ready_to_go_on(),
    {
        reveal(CpuState::step_middle);
        let op = self.opcode1;
        if op == 0x76 {
            self.halt();
        } else if op < 0x80 {
            self.ld_reg_reg();
        } else if op < 0x88 {
            self.add();
        } else if op < 0x90 {
            self.adc();
        } else if op < 0x98 {
            self.sub();
        } else if op < 0xa0 {
            self.sbc();
        } else if op < 0xa8 {
            self.and_reg();
        } else if op < 0xb0 {
            self.xor_reg();
        } else if op < 0xb8 {
            self.or_reg();
        } else {
            self.cp_reg();
        }
    }

    fn execute_high(&mut self)
        requires
            old(self).mmu.wf(),
            old(self)@.operands_ready(),
            !old(self).pending_interrupt,
            0xc0 <= old(self).opcode1,
            old(self).opcode1 != 0xcb,
            !invalid_opcode(old(self).opcode1),
        ensures
            final(self)@ == old(self)@.step_high(),
            final(self).mmu.wf(),
            final(self)@.ready_to_go_on(),
    {
        reveal(CpuState::step_high);
        match self.opcode1 {
            0xc0 | 0xc8 | 0xd0 | 0xd8 => {
                self.ret_cc();
            },
            0xc1 | 0xd1 | 0xe1 | 0xf1 => {
                self.pop_reg16();
            },
            0xc2 | 0xca | 0xd2 | 0xda => {
                self.jump_cc_a16();
            },
            0xc3 => {
                self.jump_a16();
            },
            0xc4 | 0xcc | 0xd4 | 0xdc => {
                self.call_cc_a16();
            },
            0xc5 | 0xd5 | 0xe5 | 0xf5 => {
                self.push_reg16();
            },
            0xc6 => {
                self.add_d8();
            },
            0xc7 | 0xcf | 0xd7 | 0xdf | 0xe7 | 0xef | 0xf7 | 0xff => {
                self.rst();
            },
            0xc9 => {
                self.ret();
            },
            0xcd => {
                self.call_a16();
            },
            0xce => {
                self.adc_d8();
            },
            0xd6 => {
                self.sub_d8();
            },
            0xd9 => {
                self.reti();
            },
            0xde => {
                self.sbc_d8();
            },
            0xe0 => {
                self.ld_a8_a();
            },
            0xe2 => {
                self.ld_ff_c_a();
            },
            0xe6 => {
                self.and_d8();
            },
            0xe8 => {
                self.add_sp_r8();
            },
            0xe9 => {
                self.jump_hl();
            },
            0xea => {
                self.ld_a16_a();
            },
            0xee => {
                self.xor_d8();
            },
            0xf0 => {
                self.ld_a_a8();
            },
            0xf2 => {
                self.ld_a_ff_c();
            },
            0xf3 => {
                self.disable_interrupts();
            },
            0xf6 => {
                self.or_d8();
            },
            0xf8 => {
                self.ldhl_sp_r8();
            },
            0xf9 => {
                self.ld_sp_hl();
            },
            0xfa => {
                self.ld_a_a16();
            },
            0xfb => {
                self.enable_interrupts();
            },
            _ => {
                self.cp_d8();
            },
        }
    }

    /// A cycle of a prefixed instruction on the byte at HL.
    fn execute_prefixed_memory(&mut self)
        requires
            old(self).mmu.wf(),
            old(self)@.operands_ready(),
            !old(self).pending_interrupt,
            old(self).opcode1 == 0xcb,
            source_field(old(self).opcode2) == 6,
        ensures
            final(self)@ == (match old(self).opcode2 >> 3 {
                0 => old(self)@.rlc_hl(),
                1 => old(self)@.rrc_hl(),
                2 => old(self)@.rl_hl(),
                3 => old(self)@.rr_hl(),
                4 => old(self)@.sla_hl(),
                5 => old(self)@.sra_hl(),
                6 => old(self)@.swap_hl(),
                7 => old(self)@.srl_hl(),
                8 | 9 | 10 | 11 | 12 | 13 | 14 | 15 => old(self)@.bit_hl(),
                16 | 17 | 18 | 19 | 20 | 21 | 22 | 23 => old(self)@.res_hl(),
                _ => old(self)@.set_hl(),
            }),
            final(self).mmu.wf(),
            final(self)@.ready_to_go_on(),
    {
        let kind = self.opcode2 >> 3;
        if 8 <= kind && kind <= 15 {
            self.bit_hl();
        } else {
            match kind {
                0 => self.rlc_hl(),
                1 => self.rrc_hl(),
                2 => self.rl_hl(),
                3 => self.rr_hl(),
                4 => self.sla_hl(),
                5 => self.sra_hl(),
                6 => self.swap_hl(),
                7 => self.srl_hl(),
                16 | 17 | 18 | 19 | 20 | 21 | 22 | 23 => self.res_hl(),
                _ => self.set_hl(),
            }
        }
    }

    /// A cycle of a prefixed instruction on a register.
    fn execute_prefixed_register(&mut self)
        requires
            old(self).mmu.wf(),
            !old(self).pending_interrupt,
            old(self).opcode1 == 0xcb,
            source_field(old(self).opcode2) != 6,
        ensures
            final(self)@ == (match old(self).opcode2 >> 3 {
                0 => old(self)@.rlc(),
                1 => old(self)@.rrc(),
                2 => old(self)@.rl(),
                3 => old(self)@.rr(),
                4 => old(self)@.sla(),
                5 => old(self)@.sra(),
                6 => old(self)@.swap(),
                7 => old(self)@.srl(),
                8 | 9 | 10 | 11 | 12 | 13 | 14 | 15 => old(self)@.bit(),
                16 | 17 | 18 | 19 | 20 | 21 | 22 | 23 => old(self)@.res(),
                _ => old(self)@.set(),
            }),
            final(self).mmu.wf(),
            final(self)@.ready_to_go_on(),
    {
        match self.opcode2 >> 3 {
            0 => self.rlc(),
            1 => self.rrc(),
            2 => self.rl(),
            3 => self.rr(),
            4 => self.sla(),
            5 => self.sra(),
            6 => self.swap(),
            7 => self.srl(),
            8 | 9 | 10 | 11 | 12 | 13 | 14 | 15 => self.bit(),
            16 | 17 | 18 | 19 | 20 | 21 | 22 | 23 => self.res(),
            _ => self.set(),
        }
    }

    fn execute_prefixed(&mut self)
        requires
            old(self).mmu.wf(),
            old(self)@.operands_ready(),
            !old(self).pending_interrupt,
            old(self).opcode1 == 0xcb,
        ensures
            final(self)@ == old(self)@.step_prefixed(),
            final(self).mmu.wf(),
            final(self)@.ready_to_go_on(),
    {
        reveal(CpuState::step_prefixed);
        if self.cycles == 0 {
            self.opcode2 = self.next_byte();
        }
        if self.opcode2 & 0x07 == 6 {
            self.execute_prefixed_memory();
        } else {
            self.execute_prefixed_register();
        }
    }

    /// Carries out one cycle of the instruction in the opcode latches.
    /// Returns whether the first latch holds an instruction.
    fn execute_instruction(&mut self) -> (r: bool)
        requires
            old(self).mmu.wf(),
            old(self)@.operands_ready(),
            !old(self).pending_interrupt,
        ensures
            r == !invalid_opcode(old(self).opcode1),
            r ==> final(self)@ == old(self)@.step() && final(self)@.ready_to_go_on(),
            !r ==> final(self)@ == old(self)@,
            final(self).mmu.wf(),
            !final(self).pending_interrupt,
    {
        reveal(CpuState::ready_to_go_on);
        let op = self.opcode1;
        if op < 0x40 {
            self.execute_low();
            true
        } else if op < 0xc0 {
            self.execute_middle();
            true
        } else if op == 0xcb {
            self.execute_prefixed();
            true
        } else if op == 0xd3 || op == 0xdb || op == 0xdd || op == 0xe3 || op == 0xe4 || op == 0xeb
            || op == 0xec || op == 0xed || op == 0xf4 || op == 0xfc || op == 0xfd {
            false
        } else {
            self.execute_high();
            true
        }
    }

    /// Wakes a halted CPU or polls the interrupt controller.
    fn acknowledge_interrupt(&mut self)
        requires
            old(self).mmu.wf(),
        ensures
            final(self)@ == old(self)@.acknowledged(),
            final(self).mmu.wf(),
    {
        if self.halt && self.mmu.interrupt_controller.state != InterruptState::Enabled {
            self.halt = !self.mmu.interrupt_controller.poll_interrupts();
            self.pending_interrupt = false;
        } else {
            match self.mmu.interrupt_controller.pending_interrupts() {
                Some(dest) => {
                    self.pending_interrupt = true;
                    self.halt = false;
                    self.interrupt_dest = dest as u16;
                },
                None => {},
            }
        }
    }

    /// Carries out a cycle of the interrupt sequence.
    fn run_interrupt_sequence(&mut self)
        requires
            old(self).mmu.wf(),
        ensures
            final(self)@ == old(self)@.interrupt_step(),
            final(self).mmu.wf(),
    {
        if self.pending_interrupt {
            match self.cycles {
                0 => self.cycles = 5,
                4 => {},
                3 => {
                    let pc_h = ((self.pc & 0xff00) >> 8) as u8;
                    self.push_stack(pc_h);
                },
                2 => {
                    let pc_l = self.pc as u8;
                    self.push_stack(pc_l);
                },
                _ => {
                    self.pc = self.interrupt_dest;
                },
            }
        }
    }

    fn process_interrupts(&mut self)
        requires
            old(self).mmu.wf(),
        ensures
            final(self)@ == old(self)@.after_interrupt_poll(),
            final(self).mmu.wf(),
    {
        self.acknowledge_interrupt();
        self.run_interrupt_sequence();
    }

    /// Counts the cycle and, when none is left, drops the scratch bytes and
    /// ends an interrupt sequence.
    fn count_cycle(&mut self)
        requires
            old(self).pending_interrupt || old(self)@.ready_to_go_on(),
        ensures
            final(self)@ == (if old(self)@.ticked().cycles == 0 {
                CpuState {
                    mem_read: Seq::empty(),
                    pending_interrupt: false,
                    ..old(self)@.ticked()
                }
            } else {
                old(self)@.ticked()
            }),
            final(self).mmu == old(self).mmu,
            final(self).halt == old(self).halt,
            final(self).pending_interrupt ==> old(self).pending_interrupt,
            final(self).cycles == 0 || final(self).pending_interrupt
                || final(self)@.operands_ready(),
    {
        reveal(CpuState::ready_to_go_on);
        self.cycles = self.cycles.saturating_sub(1);
        if self.cycles == 0 {
            self.mem_read = Vec::new();
            self.pending_interrupt = false;
        }
    }

    /// Polls the interrupts where they are polled, and fetches the next
    /// opcode where one is due.
    fn finish_cycle(&mut self)
        requires
            old(self).mmu.wf(),
            !(old(self).pending_interrupt && old(self).halt),
            old(self).cycles == 0 || old(self).pending_interrupt || old(self)@.operands_ready(),
        ensures
            final(self)@.operands_ready(),
            !(final(self).pending_interrupt && final(self).halt),
            final(self)@ == ({
                let c = old(self)@;
                if c.cycles == 0 || c.pending_interrupt {
                    let p = c.after_interrupt_poll();
                    if p.pending_interrupt || p.halt {
                        p
                    } else if p.cycles == 0 {
                        p.with_opcode_fetch()
                    } else {
                        p
                    }
                } else {
                    c
                }
            }),
            final(self).mmu.wf(),
    {
        if self.cycles == 0 || self.pending_interrupt {
            self.process_interrupts();
            if self.pending_interrupt || self.halt {
                return ;
            }
        }
        if self.cycles == 0 {
            self.opcode1 = self.next_byte();
        }
    }

    /// One machine cycle. Fails, and changes nothing, exactly when the CPU
    /// is stuck on a byte that is no instruction.
    pub fn execute_cycle(&mut self) -> (r: Result<(), CpuError>)
        requires
            old(self).wf(),
        ensures
            final(self).wf(),
            match r {
                Ok(_) => !old(self)@.stuck() && final(self)@ == old(self)@.after_cycle(),
                Err(e) => {
                    &&& old(self)@.stuck()
                    &&& e == CpuError::InvalidOpcode(old(self).opcode1)
                    &&& final(self)@ == old(self)@
                },
            },
    {
        reveal(CpuState::after_cycle);
        if self.mmu.dma_config.cpu_halted(self.mmu.ppu.lcd_status.mode) {
            return Ok(());
        }
        if !self.pending_interrupt {
            if !self.execute_instruction() {
                return Err(CpuError::InvalidOpcode(self.opcode1));
            }
        }
        self.count_cycle();
        self.finish_cycle();
        Ok(())
    }
}

} // verus!
