//! The CPU: its state, its access to registers, memory and stack, the
//! interrupt sequence, and the machine cycle that ties them together.

use vstd::prelude::*;
use crate::bits::{hi_byte, lo_byte, word};
use crate::interrupts::{InterruptState, InterruptController, vector_of};
use crate::mmu::{Mmu, MmuError};
use crate::cartridge::Cartridge;
use crate::registers::Registers;

verus! {

/// Why the CPU cannot go on.
#[derive(Copy, Clone, Debug, PartialEq, Eq)]
pub enum CpuError {
    /// The opcode latch holds one of the eleven bytes that are no
    /// instruction; the byte is attached.
    InvalidOpcode(u8),
}

/// The CPU with the memory map it owns.
///
/// An instruction takes one to six machine cycles. `cycles` counts the
/// cycles that are left, `opcode1` and `opcode2` hold the instruction, and
/// `mem_read` collects the bytes that the instruction has read so far.
pub struct CPU {
    pub mmu: Mmu,
    pub pc: u16,
    pub sp: u16,
    pub registers: Registers,
    pub cycles: u8,
    pub halt: bool,
    pub mem_read: Vec<u8>,
    pub opcode1: u8,
    pub opcode2: u8,
    pub pending_interrupt: bool,
    pub interrupt_dest: u16,
}

/// The state of the CPU as a value: the CPU with the bytes of `mem_read` as
/// a sequence.
pub struct CpuState {
    pub mmu: Mmu,
    pub pc: u16,
    pub sp: u16,
    pub registers: Registers,
    pub cycles: u8,
    pub halt: bool,
    pub mem_read: Seq<u8>,
    pub opcode1: u8,
    pub opcode2: u8,
    pub pending_interrupt: bool,
    pub interrupt_dest: u16,
}

impl View for CPU {
    type V = CpuState;

    open spec fn view(&self) -> CpuState {
        CpuState {
            mmu: self.mmu,
            pc: self.pc,
            sp: self.sp,
            registers: self.registers,
            cycles: self.cycles,
            halt: self.halt,
            mem_read: self.mem_read@,
            opcode1: self.opcode1,
            opcode2: self.opcode2,
            pending_interrupt: self.pending_interrupt,
            interrupt_dest: self.interrupt_dest,
        }
    }
}

/// The 16-bit value one above `v`, wrapping at 0xffff.
pub open spec fn next16(v: u16) -> u16 {
    if v == 0xffff {
        0
    } else {
        (v + 1) as u16
    }
}

/// The 16-bit value one below `v`, wrapping at zero.
pub open spec fn prev16(v: u16) -> u16 {
    if v == 0 {
        0xffff
    } else {
        (v - 1) as u16
    }
}

impl CpuState {
    /// The byte at the program counter.
    pub open spec fn fetched(self) -> u8 {
        self.mmu.read_value(self.pc as usize)
    }

    /// The state with the program counter moved past the byte it was at.
    pub open spec fn with_fetch(self) -> CpuState {
        CpuState { pc: next16(self.pc), ..self }
    }

    /// The state with the byte at the program counter read into the
    /// scratch bytes.
    pub open spec fn with_operand(self) -> CpuState {
        CpuState { mem_read: self.mem_read.push(self.fetched()), ..self.with_fetch() }
    }

    /// The state with `value` added to the scratch bytes.
    pub open spec fn with_scratch(self, value: u8) -> CpuState {
        CpuState { mem_read: self.mem_read.push(value), ..self }
    }

    /// The 16-bit operand in the first two scratch bytes, low byte first.
    pub open spec fn operand16(self) -> u16 {
        word(self.mem_read[1], self.mem_read[0])
    }

    /// The value of the 8-bit operand that a 3-bit field names: a
    /// register, or for field value 6 the byte that HL points to.
    pub open spec fn reg8(self, id: u8) -> u8 {
        if id == 6 {
            self.mmu.read_value(self.registers.hl() as usize)
        } else {
            self.registers.reg8(id)
        }
    }

    pub open spec fn with_reg8(self, id: u8, value: u8) -> CpuState {
        if id == 6 {
            CpuState { mmu: self.mmu.with_write(self.registers.hl() as usize, value), ..self }
        } else {
            CpuState { registers: self.registers.with_reg8(id, value), ..self }
        }
    }

    /// The value of the 16-bit register that a 2-bit field names in the
    /// arithmetic and load instructions: BC, DE, HL, SP.
    pub open spec fn reg16(self, id: u8) -> u16 {
        if id == 3 {
            self.sp
        } else {
            self.registers.reg16(id)
        }
    }

    pub open spec fn with_reg16(self, id: u8, value: u16) -> CpuState {
        if id == 3 {
            CpuState { sp: value, ..self }
        } else {
            CpuState { registers: self.registers.with_reg16(id, value), ..self }
        }
    }

    /// The state with `value` pushed: the stack pointer moves down by one
    /// and the byte is stored where it then points.
    pub open spec fn pushed(self, value: u8) -> CpuState {
        CpuState {
            sp: prev16(self.sp),
            mmu: self.mmu.with_write(prev16(self.sp) as usize, value),
            ..self
        }
    }

    /// The byte on top of the stack.
    pub open spec fn stack_top(self) -> u8 {
        self.mmu.read_value(self.sp as usize)
    }

    /// The state with the top of the stack popped into the scratch bytes.
    pub open spec fn with_pop(self) -> CpuState {
        CpuState { sp: next16(self.sp), mem_read: self.mem_read.push(self.stack_top()), ..self }
    }

    /// The state with the instruction's length in machine cycles set.
    pub open spec fn taking(self, cycles: u8) -> CpuState {
        CpuState { cycles, ..self }
    }
}

impl CPU {
    /// Sets up the CPU at power-on around a cartridge and a boot image: all
    /// registers zero, about to fetch its first instruction from address
    /// zero. Fails exactly when the memory map cannot be set up.
    pub fn new(boot_image: &[u8], cartridge: Cartridge, dmg_mode: bool) -> (r: Result<
        CPU,
        MmuError,
    >)
        requires
            boot_image@.len() <= crate::mmu::BOOT_ROM_SIZE,
            cartridge.wf(),
        ensures
            r is Ok <==> boot_image@.len() >= (if dmg_mode {
                crate::mmu::DMG_BOOT_ROM_SIZE
            } else {
                crate::mmu::BOOT_ROM_SIZE
            }),
            r matches Ok(cpu) ==> {
                &&& cpu.mmu.wf()
                &&& cpu.mmu.cartridge == cartridge
                &&& cpu.mmu.dmg_mode == dmg_mode
                &&& !cpu.mmu.disable_boot_rom
                &&& cpu.pc == 0
                &&& cpu.sp == 0
                &&& cpu.registers == Registers::zeroed()
                &&& cpu.cycles == 1
                &&& !cpu.halt
                &&& cpu.mem_read@.len() == 0
                &&& cpu.opcode1 == 0
                &&& cpu.opcode2 == 0
                &&& !cpu.pending_interrupt
            },
    {
        match Mmu::new(boot_image, cartridge, dmg_mode) {
            Ok(mmu) => Ok(
                CPU {
                    mmu,
                    pc: 0,
                    sp: 0,
                    registers: Registers::new(),
                    cycles: 1,
                    halt: false,
                    mem_read: Vec::new(),
                    opcode1: 0,
                    opcode2: 0,
                    pending_interrupt: false,
                    interrupt_dest: 0,
                },
            ),
            Err(e) => Err(e),
        }
    }

    /// Reads the byte at the program counter and moves past it.
    pub fn next_byte(&mut self) -> (r: u8)
        requires
            old(self).mmu.wf(),
        ensures
            r == old(self)@.fetched(),
            final(self)@ == old(self)@.with_fetch(),
    {
        let byte = self.mmu.read_byte(self.pc as usize);
        self.pc = self.pc.wrapping_add(1);
        byte
    }

    /// Reads the byte at the program counter into the scratch bytes.
    pub fn read_operand(&mut self)
        requires
            old(self).mmu.wf(),
        ensures
            final(self)@ == old(self)@.with_operand(),
    {
        let mem_read = self.next_byte();
        self.mem_read.push(mem_read);
    }

    pub fn write_reg8(&mut self, reg_id: u8, value: u8)
        requires
            old(self).mmu.wf(),
            reg_id <= 7,
        ensures
            final(self)@ == old(self)@.with_reg8(reg_id, value),
            final(self).mmu.wf(),
    {
        if reg_id == 6 {
            self.mmu.write_byte(self.registers.get_hl() as usize, value);
        } else {
            self.registers.set_reg8_by_id(reg_id, value);
        }
    }

    pub fn read_reg8(&self, reg_id: u8) -> (r: u8)
        requires
            self.mmu.wf(),
            reg_id <= 7,
        ensures
            r == self@.reg8(reg_id),
    {
        if reg_id == 6 {
            self.mmu.read_byte(self.registers.get_hl() as usize)
        } else {
            self.registers.get_reg8_by_id(reg_id)
        }
    }

    pub fn write_reg16(&mut self, reg_id: u8, value: u16)
        requires
            reg_id <= 3,
        ensures
            final(self)@ == old(self)@.with_reg16(reg_id, value),
    {
        if reg_id == 3 {
            self.sp = value;
        } else {
            self.registers.set_reg16_by_id(reg_id, value);
        }
    }

    pub fn read_reg16(&self, reg_id: u8) -> (r: u16)
        requires
            reg_id <= 3,
        ensures
            r == self@.reg16(reg_id),
    {
        if reg_id == 3 {
            self.sp
        } else {
            self.registers.get_reg16_by_id(reg_id)
        }
    }

    pub fn push_stack(&mut self, value: u8)
        requires
            old(self).mmu.wf(),
        ensures
            final(self)@ == old(self)@.pushed(value),
            final(self).mmu.wf(),
    {
        self.sp = self.sp.wrapping_sub(1);
        self.mmu.write_byte(self.sp as usize, value);
    }

    pub fn pop_stack(&mut self) -> (r: u8)
        requires
            old(self).mmu.wf(),
        ensures
            r == old(self)@.stack_top(),
            final(self)@ == (CpuState { sp: next16(old(self).sp), ..old(self)@ }),
    {
        let value = self.mmu.read_byte(self.sp as usize);
        self.sp = self.sp.wrapping_add(1);
        value
    }

    /// Pops the top of the stack into the scratch bytes.
    pub fn pop_operand(&mut self)
        requires
            old(self).mmu.wf(),
        ensures
            final(self)@ == old(self)@.with_pop(),
    {
        let mem_read = self.pop_stack();
        self.mem_read.push(mem_read);
    }
}

} // verus!
