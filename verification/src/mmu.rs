//! The memory map: it sends every read and write of the 16-bit address
//! space to the unit that owns the address, lays the boot image over the
//! start of the cartridge, and runs the three DMA engines.

use vstd::prelude::*;
use crate::bits::lemma_field_bounds;
use crate::cartridge::Cartridge;
use crate::interrupts::InterruptController;
use crate::joypad::Joypad;
use crate::mbc::{overlay, in_cartridge_window};
use crate::ppu::{PPU, LcdControl};
use crate::serial::SerialLink;
use crate::sound::SoundController;
use crate::timer::Timer;

verus! {

/// Size of the boot image of the colour machine, and of the buffer that
/// holds either boot image.
pub const BOOT_ROM_SIZE: usize = 0x900;

/// Size of the boot image of the monochrome machine.
pub const DMG_BOOT_ROM_SIZE: usize = 0x100;

/// Why the memory map cannot be set up.
#[derive(Copy, Clone, Debug, PartialEq, Eq)]
pub enum MmuError {
    /// The boot image is shorter than the machine's boot ROM.
    MissingBootRom,
}

/// The three DMA engines.
#[derive(Copy, Clone, Debug, PartialEq, Eq, Structural)]
pub enum DmaType {
    Oam,
    GeneralPurpose,
    Hblank,
}

impl Default for DmaType {
    fn default() -> (r: DmaType)
        ensures
            r == DmaType::Oam,
    {
        DmaType::Oam
    }
}

/// The state of the DMA engines; one transfer runs at a time.
#[derive(Copy, Clone, Debug)]
pub struct DmaConfig {
    pub oam_source_address: usize,
    pub gp_source_address: usize,
    pub gp_dest_address: usize,
    pub count: usize,
    pub hblank_count: usize,
    pub active: bool,
    pub length: usize,
    pub dma_type: DmaType,
}

impl Default for DmaConfig {
    fn default() -> (r: DmaConfig)
        ensures
            r == DmaConfig::idle(),
    {
        DmaConfig {
            oam_source_address: 0,
            gp_source_address: 0,
            gp_dest_address: 0,
            count: 0,
            hblank_count: 0,
            active: false,
            length: 0,
            dma_type: DmaType::Oam,
        }
    }
}

impl DmaConfig {
    pub open spec fn idle() -> DmaConfig {
        DmaConfig {
            oam_source_address: 0,
            gp_source_address: 0,
            gp_dest_address: 0,
            count: 0,
            hblank_count: 0,
            active: false,
            length: 0,
            dma_type: DmaType::Oam,
        }
    }

    /// Addresses are 16-bit, and the bytes left to copy are no more than
    /// the transfer is long: at most 161 steps for the sprite table, at
    /// most 0x800 bytes for the other two.
    pub open spec fn wf(self) -> bool {
        &&& self.oam_source_address <= 0xff00
        &&& self.gp_source_address <= 0xffff
        &&& self.gp_dest_address <= 0x9fff
        &&& self.length <= 0x800
        &&& self.hblank_count <= 16
        &&& if self.dma_type == DmaType::Oam {
            self.count <= 0xa1
        } else {
            self.count <= self.length
        }
    }

    /// Whether the CPU is stopped by a transfer: by a general-purpose
    /// transfer while it runs, by an H-blank transfer while it copies its 16
    /// bytes during an H-blank.
    pub open spec fn halts_cpu(self, mode: u8) -> bool {
        (self.dma_type == DmaType::GeneralPurpose && self.active) || (self.dma_type
            == DmaType::Hblank && self.active && mode == 0 && self.hblank_count > 0)
    }

    /// The DMA state after a write to one of the DMA registers 0xff46 and
    /// 0xff51 to 0xff55. A write to 0xff46 starts a sprite-table transfer
    /// from page `value`; one to 0xff55 starts a transfer of
    /// `((value & 0x7f) + 1) * 16` bytes, by H-blanks if bit 7 is set, or
    /// stops a running H-blank transfer if bit 7 is clear.
    pub open spec fn with_register(self, address: usize, value: u8) -> DmaConfig {
        let dma = self;
        if address == 0xff46 {
            DmaConfig {
                oam_source_address: (value * 0x100) as usize,
                count: 0xa1,
                active: true,
                dma_type: DmaType::Oam,
                ..dma
            }
        } else if address == 0xff51 {
            DmaConfig {
                gp_source_address: (value * 0x100 + dma.gp_source_address % 0x100) as usize,
                ..dma
            }
        } else if address == 0xff52 {
            DmaConfig {
                gp_source_address: (dma.gp_source_address / 0x100 * 0x100 + value) as usize,
                ..dma
            }
        } else if address == 0xff53 {
            DmaConfig {
                gp_dest_address: (((value | 0x80) & 0x9f) * 0x100 + dma.gp_dest_address
                    % 0x100) as usize,
                ..dma
            }
        } else if address == 0xff54 {
            DmaConfig {
                gp_dest_address: (dma.gp_dest_address / 0x100 * 0x100 + (value & 0xf0)) as usize,
                ..dma
            }
        } else if dma.dma_type == DmaType::Hblank && value & 0x80 == 0 && dma.active {
            DmaConfig { active: false, ..dma }
        } else {
            DmaConfig {
                dma_type: if value & 0x80 == 0x80 {
                    DmaType::Hblank
                } else {
                    DmaType::GeneralPurpose
                },
                hblank_count: if value & 0x80 == 0x80 {
                    16
                } else {
                    dma.hblank_count
                },
                count: (((value & 0x7f) + 1) * 0x10) as usize,
                length: (((value & 0x7f) + 1) * 0x10) as usize,
                active: true,
                ..dma
            }
        }
    }

    /// Writes one of the DMA registers 0xff46 and 0xff51 to 0xff55.
    pub fn write_register(&mut self, address: usize, value: u8)
        requires
            old(self).wf(),
            address == 0xff46 || 0xff51 <= address <= 0xff55,
        ensures
            *final(self) == old(self).with_register(address, value),
            final(self).wf(),
    {
        proof {
            lemma_dma_bits(value);
            lemma_field_bounds(value);
        }
        if address == 0xff46 {
            self.oam_source_address = (value as usize) * 0x100;
            self.count = 0xa1;
            self.active = true;
            self.dma_type = DmaType::Oam;
        } else if address == 0xff51 {
            self.gp_source_address = (value as usize) * 0x100 + self.gp_source_address % 0x100;
        } else if address == 0xff52 {
            self.gp_source_address = self.gp_source_address / 0x100 * 0x100 + value as usize;
        } else if address == 0xff53 {
            self.gp_dest_address = (((value | 0x80) & 0x9f) as usize) * 0x100
                + self.gp_dest_address % 0x100;
        } else if address == 0xff54 {
            self.gp_dest_address = self.gp_dest_address / 0x100 * 0x100 + (value & 0xf0) as usize;
        } else if self.dma_type == DmaType::Hblank && value & 0x80 == 0 && self.active {
            self.active = false;
        } else {
            if value & 0x80 == 0x80 {
                self.dma_type = DmaType::Hblank;
                self.hblank_count = 16;
            } else {
                self.dma_type = DmaType::GeneralPurpose;
            }
            self.count = (((value & 0x7f) as usize) + 1) * 0x10;
            self.length = (((value & 0x7f) as usize) + 1) * 0x10;
            self.active = true;
        }
    }

    pub fn cpu_halted(&self, mode: u8) -> (r: bool)
        ensures
            r == self.halts_cpu(mode),
    {
        (self.dma_type == DmaType::GeneralPurpose && self.active) || (self.dma_type
            == DmaType::Hblank && self.active && mode == 0 && self.hblank_count > 0)
    }
}

pub struct Mmu {
    pub boot_rom: [u8; 0x900],
    pub cartridge: Cartridge,
    pub wram: [u8; 0x8000],
    pub hram: [u8; 0x7f],
    pub disable_boot_rom: bool,
    pub ppu: PPU,
    pub sound_controller: SoundController,
    pub interrupt_controller: InterruptController,
    pub timer: Timer,
    pub joypad: Joypad,
    pub serial_link: SerialLink,
    pub dma_config: DmaConfig,
    pub wram_bank_sel: u8,
    pub dmg_mode: bool,
    pub color_machine: bool,
    pub double_speed: bool,
    pub prepare_speed_switch: bool,
}

/// Facts on the bytes of the DMA address registers.
proof fn lemma_dma_bits(v: u8)
    ensures
        0x80 <= (v | 0x80) & 0x9f <= 0x9f,
        v & 0xf0 <= 0xf0,
{
    assert(0x80 <= (v | 0x80) & 0x9f && (v | 0x80) & 0x9f <= 0x9f && v & 0xf0 <= 0xf0)
        by (bit_vector);
}

impl Mmu {
    pub open spec fn wf(&self) -> bool {
        &&& self.cartridge.wf()
        &&& self.ppu.wf()
        &&& self.sound_controller.wf()
        &&& self.timer.wf()
        &&& self.dma_config.wf()
        &&& self.wram_bank_sel <= 7
    }

    /// Whether a read at `address` sees the boot image: until the overlay
    /// is switched off it covers the first 0x100 bytes and, on the colour
    /// machine, 0x200 to 0x8ff; the cartridge header in between always
    /// shows.
    pub open spec fn boot_overlay(&self, address: usize) -> bool {
        !self.disable_boot_rom && (address < 0x100 || (self.color_machine && 0x200 <= address
            < 0x900))
    }

    /// The working RAM bank mapped at 0xd000: the selected one, bank 1 if
    /// bank 0 is selected.
    pub open spec fn wram_bank(&self) -> int {
        if self.wram_bank_sel == 0 {
            1
        } else {
            self.wram_bank_sel as int
        }
    }

    /// The byte of working RAM that an address from 0xc000 to 0xfdff stands
    /// for; 0xe000 to 0xfdff mirror 0xc000 to 0xddff.
    pub open spec fn wram_index(&self, address: usize) -> int {
        if address < 0xd000 {
            address - 0xc000
        } else if address < 0xe000 {
            self.wram_bank() * 0x1000 + address - 0xd000
        } else if address < 0xf000 {
            address - 0xe000
        } else {
            self.wram_bank() * 0x1000 + address - 0xf000
        }
    }

    /// Whether the sprite-table transfer keeps the CPU from the table.
    pub open spec fn oam_busy(&self) -> bool {
        self.dma_config.active && self.dma_config.dma_type == DmaType::Oam
    }

    pub open spec fn speed_register(&self) -> u8 {
        (0x7eu8 | (if self.double_speed {
            0x80u8
        } else {
            0x00u8
        })) | (if self.prepare_speed_switch {
            0x01u8
        } else {
            0x00u8
        })
    }

    /// What the DMA control register reads as: 0xff unless an H-blank
    /// transfer was started, then the number of 16-byte blocks left, less
    /// one, with bit 7 set once the transfer is over.
    pub open spec fn dma_status(&self) -> u8 {
        match self.dma_config.dma_type {
            DmaType::Hblank => {
                let blocks = if self.dma_config.count / 0x10 == 0 {
                    0xffu8
                } else {
                    (self.dma_config.count / 0x10 - 1) as u8
                };
                if self.dma_config.active {
                    blocks
                } else {
                    blocks | 0x80
                }
            },
            _ => 0xff,
        }
    }

    /// What a read in the register page 0xff00 to 0xff7f returns. The
    /// registers of the colour machine read as 0xff in monochrome mode, as
    /// every address does that holds no register.
    #[verifier::opaque]
    pub open spec fn io_value(&self, address: usize) -> u8 {
        if address == 0xff00 {
            self.joypad.read_value()
        } else if address == 0xff01 || address == 0xff02 {
            self.serial_link.read_value(address)
        } else if 0xff04 <= address <= 0xff07 {
            self.timer.read_value(address)
        } else if address == 0xff0f {
            self.interrupt_controller.read_value(address)
        } else if 0xff10 <= address <= 0xff3f {
            self.sound_controller.read_value(address)
        } else if 0xff40 <= address <= 0xff45 || 0xff47 <= address <= 0xff4b {
            self.ppu.register_value(address)
        } else if address == 0xff46 {
            (self.dma_config.oam_source_address / 0x100) as u8
        } else if address == 0xff4d {
            self.speed_register()
        } else if self.dmg_mode {
            0xff
        } else if address == 0xff4f || 0xff68 <= address <= 0xff6c {
            self.ppu.register_value(address)
        } else if address == 0xff51 {
            (self.dma_config.gp_source_address / 0x100) as u8
        } else if address == 0xff52 {
            (self.dma_config.gp_source_address % 0x100) as u8
        } else if address == 0xff53 {
            (self.dma_config.gp_dest_address / 0x100) as u8
        } else if address == 0xff54 {
            (self.dma_config.gp_dest_address % 0x100) as u8
        } else if address == 0xff55 {
            self.dma_status()
        } else if address == 0xff70 {
            self.wram_bank_sel
        } else {
            0xff
        }
    }

    /// What a read at `address` returns. Addresses that nothing is mapped
    /// to read as 0xff.
    #[verifier::opaque]
    pub open spec fn read_value(&self, address: usize) -> u8 {
        if self.boot_overlay(address) {
            self.boot_rom[address as int]
        } else if in_cartridge_window(address) {
            self.cartridge.read_value(address)
        } else if address < 0xa000 {
            self.ppu.vram_value(address)
        } else if address < 0xfe00 {
            self.wram[self.wram_index(address)]
        } else if address < 0xff00 {
            if self.oam_busy() {
                0xff
            } else {
                self.ppu.oam_value(address)
            }
        } else if address < 0xff80 {
            self.io_value(address)
        } else if address < 0xffff {
            self.hram[address - 0xff80]
        } else if address == 0xffff {
            self.interrupt_controller.read_value(address)
        } else {
            0xff
        }
    }

    /// The memory map after a write to the register page. A write to the
    /// LCD status register that raises the status line requests the LCD
    /// status interrupt, and a write to the divider that wraps the timer
    /// counter requests the timer interrupt. The registers of the colour
    /// machine that select banks or start DMA take no writes in monochrome
    /// mode.
    #[verifier::opaque]
    pub open spec fn with_io_write(&self, address: usize, value: u8) -> Mmu {
        if address == 0xff00 {
            Mmu { joypad: self.joypad.with_select(value), ..*self }
        } else if address == 0xff01 || address == 0xff02 {
            Mmu { serial_link: self.serial_link.with_write(address, value), ..*self }
        } else if 0xff04 <= address <= 0xff07 {
            Mmu {
                timer: self.timer.with_write(address, value),
                interrupt_controller: if address == 0xff04
                    && self.timer.divider_write_overflows() {
                    self.interrupt_controller.with_request(0x04)
                } else {
                    self.interrupt_controller
                },
                ..*self
            }
        } else if address == 0xff0f {
            Mmu {
                interrupt_controller: self.interrupt_controller.with_write(address, value),
                ..*self
            }
        } else if 0xff10 <= address <= 0xff3f {
            Mmu { sound_controller: self.sound_controller.with_write(address, value), ..*self }
        } else if address == 0xff40 {
            Mmu { ppu: PPU { lcdc: LcdControl::of_bits(value), ..self.ppu }, ..*self }
        } else if address == 0xff41 {
            let written = self.ppu.with_register(address, value);
            Mmu {
                ppu: written,
                interrupt_controller: if written.stat_line() && !self.ppu.stat_line() {
                    self.interrupt_controller.with_request(0x02)
                } else {
                    self.interrupt_controller
                },
                ..*self
            }
        } else if 0xff42 <= address <= 0xff45 || 0xff47 <= address <= 0xff4b || 0xff68 <= address
            <= 0xff6c {
            Mmu { ppu: self.ppu.with_register(address, value), ..*self }
        } else if address == 0xff4f {
            if self.dmg_mode {
                *self
            } else {
                Mmu { ppu: self.ppu.with_register(address, value), ..*self }
            }
        } else if address == 0xff46 {
            Mmu { dma_config: self.dma_config.with_register(address, value), ..*self }
        } else if address == 0xff4c {
            if value & 0x80 == 0 {
                Mmu { dmg_mode: true, ppu: PPU { dmg_compatibility: true, ..self.ppu }, ..*self }
            } else {
                *self
            }
        } else if address == 0xff4d {
            Mmu { prepare_speed_switch: value & 0x01 == 0x01, ..*self }
        } else if address == 0xff50 {
            Mmu { disable_boot_rom: true, ..*self }
        } else if 0xff51 <= address <= 0xff55 && !self.dmg_mode {
            Mmu { dma_config: self.dma_config.with_register(address, value), ..*self }
        } else if address == 0xff70 && !self.dmg_mode {
            Mmu { wram_bank_sel: value & 0x07, ..*self }
        } else {
            *self
        }
    }

    /// The memory map after a write. Writes to ROM addresses go to the bank
    /// controller; writes to addresses that nothing is mapped to, and to
    /// the sprite table while the sprite-table transfer runs, are dropped.
    #[verifier::opaque]
    pub open spec fn with_write(&self, address: usize, value: u8) -> Mmu {
        if in_cartridge_window(address) {
            Mmu { cartridge: self.cartridge.with_write(address, value), ..*self }
        } else if address < 0xa000 {
            Mmu { ppu: self.ppu.with_vram(address, value), ..*self }
        } else if address < 0xfe00 {
            Mmu {
                wram: vstd::array::spec_array_update(self.wram, self.wram_index(address), value),
                ..*self
            }
        } else if address < 0xfea0 {
            if self.oam_busy() {
                *self
            } else {
                Mmu { ppu: self.ppu.with_oam(address, value), ..*self }
            }
        } else if address < 0xff00 {
            *self
        } else if address < 0xff80 {
            self.with_io_write(address, value)
        } else if address < 0xffff {
            Mmu {
                hram: vstd::array::spec_array_update(self.hram, address - 0xff80, value),
                ..*self
            }
        } else if address == 0xffff {
            Mmu {
                interrupt_controller: self.interrupt_controller.with_write(address, value),
                ..*self
            }
        } else {
            *self
        }
    }

    /// Sets up the memory map at power-on around a cartridge and a boot
    /// image, for the monochrome machine or the colour machine. Fails
    /// exactly when the boot image is shorter than the machine's boot ROM
    /// (256 bytes, or 2304 on the colour machine).
    pub fn new(boot_image: &[u8], cartridge: Cartridge, dmg_mode: bool) -> (r: Result<
        Mmu,
        MmuError,
    >)
        requires
            boot_image@.len() <= BOOT_ROM_SIZE,
            cartridge.wf(),
        ensures
            r is Ok <==> boot_image@.len() >= (if dmg_mode {
                DMG_BOOT_ROM_SIZE
            } else {
                BOOT_ROM_SIZE
            }),
            r matches Ok(mmu) ==> {
                &&& mmu.wf()
                &&& mmu.cartridge == cartridge
                &&& forall|i: int|
                    0 <= i < 0x900 ==> mmu.boot_rom[i] == (if i < boot_image@.len() {
                        boot_image@[i]
                    } else {
                        0u8
                    })
                &&& forall|i: int| 0 <= i < 0x8000 ==> mmu.wram[i] == 0
                &&& forall|i: int| 0 <= i < 0x7f ==> mmu.hram[i] == 0
                &&& !mmu.disable_boot_rom
                &&& mmu.interrupt_controller == InterruptController::initial()
                &&& mmu.timer == Timer::initial()
                &&& mmu.joypad == Joypad::initial()
                &&& mmu.serial_link == SerialLink::initial()
                &&& mmu.dma_config == DmaConfig::idle()
                &&& mmu.wram_bank_sel == 0
                &&& mmu.dmg_mode == dmg_mode
                &&& mmu.color_machine == !dmg_mode
                &&& !mmu.double_speed
                &&& !mmu.prepare_speed_switch
                &&& !mmu.ppu.lcdc.display_enable
                &&& mmu.ppu.dmg_mode == dmg_mode
                &&& !mmu.sound_controller.master_enable
            },
    {
        let needed = if dmg_mode {
            DMG_BOOT_ROM_SIZE
        } else {
            BOOT_ROM_SIZE
        };
        if boot_image.len() < needed {
            return Err(MmuError::MissingBootRom);
        }
        Ok(
            Mmu {
                boot_rom: overlay([0u8;0x900], boot_image),
                cartridge,
                wram: [0;0x8000],
                hram: [0;0x7f],
                disable_boot_rom: false,
                ppu: PPU::new(dmg_mode),
                sound_controller: SoundController::new(),
                interrupt_controller: InterruptController::new(),
                timer: Timer::new(),
                joypad: Joypad::new(),
                serial_link: SerialLink::new(),
                dma_config: DmaConfig::default(),
                wram_bank_sel: 0,
                dmg_mode,
                color_machine: !dmg_mode,
                double_speed: false,
                prepare_speed_switch: false,
            },
        )
    }

    fn wram_address(&self, address: usize) -> (r: usize)
        requires
            self.wram_bank_sel <= 7,
            0xc000 <= address < 0xfe00,
        ensures
            r == self.wram_index(address),
            r < 0x8000,
    {
        let wram_bank: usize = if self.wram_bank_sel == 0 {
            1
        } else {
            self.wram_bank_sel as usize
        };
        if address < 0xd000 {
            address - 0xc000
        } else if address < 0xe000 {
            wram_bank * 0x1000 + address - 0xd000
        } else if address < 0xf000 {
            address - 0xe000
        } else {
            wram_bank * 0x1000 + address - 0xf000
        }
    }

    fn read_dma_status(&self) -> (r: u8)
        requires
            self.dma_config.wf(),
        ensures
            r == self.dma_status(),
    {
        match self.dma_config.dma_type {
            DmaType::Oam | DmaType::GeneralPurpose => 0xff,
            DmaType::Hblank => {
                let result = ((self.dma_config.count / 0x10) as u8).wrapping_sub(1);
                if !self.dma_config.active {
                    result | 0x80
                } else {
                    result
                }
            },
        }
    }

    fn read_io(&self, address: usize) -> (r: u8)
        requires
            self.wf(),
            0xff00 <= address < 0xff80,
        ensures
            r == self.io_value(address),
    {
        reveal(Mmu::io_value);
        if address == 0xff00 {
            self.joypad.read()
        } else if address == 0xff01 || address == 0xff02 {
            self.serial_link.read(address)
        } else if 0xff04 <= address && address <= 0xff07 {
            self.timer.read(address)
        } else if address == 0xff0f {
            self.interrupt_controller.read(address)
        } else if 0xff10 <= address && address <= 0xff3f {
            self.sound_controller.read(address)
        } else if (0xff40 <= address && address <= 0xff45) || (0xff47 <= address && address
            <= 0xff4b) {
            self.ppu.read_register(address)
        } else if address == 0xff46 {
            (self.dma_config.oam_source_address / 0x100) as u8
        } else if address == 0xff4d {
            let speed: u8 = if self.double_speed { 0x80 } else { 0x00 };
            let armed: u8 = if self.prepare_speed_switch { 0x01 } else { 0x00 };
            (0x7eu8 | speed) | armed
        } else if self.dmg_mode {
            0xff
        } else if address == 0xff4f || (0xff68 <= address && address <= 0xff6c) {
            self.ppu.read_register(address)
        } else if address == 0xff51 {
            (self.dma_config.gp_source_address / 0x100) as u8
        } else if address == 0xff52 {
            (self.dma_config.gp_source_address % 0x100) as u8
        } else if address == 0xff53 {
            (self.dma_config.gp_dest_address / 0x100) as u8
        } else if address == 0xff54 {
            (self.dma_config.gp_dest_address % 0x100) as u8
        } else if address == 0xff55 {
            self.read_dma_status()
        } else if address == 0xff70 {
            self.wram_bank_sel
        } else {
            0xff
        }
    }

    pub fn read_byte(&self, address: usize) -> (r: u8)
        requires
            self.wf(),
        ensures
            r == self.read_value(address),
    {
        reveal(Mmu::read_value);
        if !self.disable_boot_rom && (address < 0x100 || (self.color_machine && 0x200 <= address
            && address < 0x900)) {
            self.boot_rom[address]
        } else if address < 0x8000 || (0xa000 <= address && address < 0xc000) {
            self.cartridge.read(address)
        } else if address < 0xa000 {
            self.ppu.read_vram(address)
        } else if address < 0xfe00 {
            self.wram[self.wram_address(address)]
        } else if address < 0xff00 {
            if self.dma_config.active && self.dma_config.dma_type == DmaType::Oam {
                0xff
            } else {
                self.ppu.read_oam(address)
            }
        } else if address < 0xff80 {
            self.read_io(address)
        } else if address < 0xffff {
            self.hram[address - 0xff80]
        } else if address == 0xffff {
            self.interrupt_controller.read(address)
        } else {
            0xff
        }
    }

    fn write_io_low(&mut self, address: usize, value: u8)
        requires
            old(self).wf(),
            0xff00 <= address < 0xff40,
        ensures
            *final(self) == old(self).with_io_write(address, value),
            final(self).wf(),
    {
        reveal(Mmu::with_io_write);
        if address == 0xff00 {
            self.joypad.write(value);
        } else if address == 0xff01 || address == 0xff02 {
            self.serial_link.write(address, value);
        } else if 0xff04 <= address && address <= 0xff07 {
            if address == 0xff04 && self.timer.divider_write_wraps() {
                self.interrupt_controller.request(0x04);
            }
            self.timer.write(address, value);
        } else if address == 0xff0f {
            self.interrupt_controller.write(address, value);
        } else if 0xff10 <= address {
            self.sound_controller.write(address, value);
        }
    }

    fn write_io_video(&mut self, address: usize, value: u8)
        requires
            old(self).wf(),
            0xff40 <= address < 0xff4c || address == 0xff4f || 0xff68 <= address <= 0xff6c,
        ensures
            *final(self) == old(self).with_io_write(address, value),
            final(self).wf(),
    {
        reveal(Mmu::with_io_write);
        if address == 0xff40 {
            self.ppu.lcdc.set_from_u8(value);
        } else if address == 0xff41 {
            let prev_interrupt_state = self.ppu.interrupt_state();
            self.ppu.write_register(address, value);
            if self.ppu.interrupt_state() && !prev_interrupt_state {
                self.interrupt_controller.request(0x02);
            }
        } else if address == 0xff46 {
            self.dma_config.write_register(address, value);
        } else if address == 0xff4f {
            if !self.dmg_mode {
                self.ppu.write_register(address, value);
            }
        } else {
            self.ppu.write_register(address, value);
        }
    }

    fn write_io_system(&mut self, address: usize, value: u8)
        requires
            old(self).wf(),
            0xff4c <= address < 0xff80,
            address != 0xff4f,
            !(0xff68 <= address <= 0xff6c),
        ensures
            *final(self) == old(self).with_io_write(address, value),
            final(self).wf(),
    {
        reveal(Mmu::with_io_write);
        if address == 0xff4c {
            if value & 0x80 == 0 {
                self.dmg_mode = true;
                self.ppu.enter_compatibility();
            }
        } else if address == 0xff4d {
            self.prepare_speed_switch = value & 0x01 == 0x01;
        } else if address == 0xff50 {
            self.disable_boot_rom = true;
        } else if 0xff51 <= address && address <= 0xff55 && !self.dmg_mode {
            self.dma_config.write_register(address, value);
        } else if address == 0xff70 && !self.dmg_mode {
            proof {
                lemma_field_bounds(value);
            }
            self.wram_bank_sel = value & 0x07;
        }
    }

    fn write_io(&mut self, address: usize, value: u8)
        requires
            old(self).wf(),
            0xff00 <= address < 0xff80,
        ensures
            *final(self) == old(self).with_io_write(address, value),
            final(self).wf(),
    {
        if address < 0xff40 {
            self.write_io_low(address, value);
        } else if address < 0xff4c || address == 0xff4f || (0xff68 <= address && address
            <= 0xff6c) {
            self.write_io_video(address, value);
        } else {
            self.write_io_system(address, value);
        }
    }

    pub fn write_byte(&mut self, address: usize, value: u8)
        requires
            old(self).wf(),
        ensures
            *final(self) == old(self).with_write(address, value),
            final(self).wf(),
    {
        reveal(Mmu::with_write);
        if address < 0x8000 || (0xa000 <= address && address < 0xc000) {
            self.cartridge.write(address, value);
        } else if address < 0xa000 {
            self.ppu.write_vram(address, value);
        } else if address < 0xfe00 {
            let index = self.wram_address(address);
            self.wram[index] = value;
        } else if address < 0xfea0 {
            if !(self.dma_config.active && self.dma_config.dma_type == DmaType::Oam) {
                self.ppu.write_oam(address, value);
            }
        } else if address < 0xff00 {
        } else if address < 0xff80 {
            self.write_io(address, value);
        } else if address < 0xffff {
            self.hram[address - 0xff80] = value;
        } else if address == 0xffff {
            self.interrupt_controller.write(address, value);
        }
    }

    /// Toggles between normal and double speed if the switch was armed.
    pub fn switch_speed(&mut self)
        ensures
            *final(self) == (if old(self).prepare_speed_switch {
                Mmu {
                    double_speed: !old(self).double_speed,
                    prepare_speed_switch: false,
                    ..*old(self)
                }
            } else {
                *old(self)
            }),
    {
        if self.prepare_speed_switch {
            self.double_speed = !self.double_speed;
            self.prepare_speed_switch = false;
        }
    }

    // ----- DMA -----
    /// The memory map after one step of the sprite-table transfer, which
    /// is active from the write that starts it. The first of its 161 steps
    /// copies nothing; each of the others copies one byte from the source
    /// page into the sprite table, and the one that copies the last byte
    /// ends the transfer.
    pub open spec fn after_oam_step(&self) -> Mmu {
        let dma = self.dma_config;
        if dma.count == 0xa1 {
            Mmu { dma_config: DmaConfig { count: 0xa0, active: true, ..dma }, ..*self }
        } else if 1 <= dma.count <= 0xa0 {
            Mmu {
                ppu: self.ppu.with_sprite_byte(
                    0xa0 - dma.count,
                    self.read_value((dma.oam_source_address + 0xa0 - dma.count) as usize),
                ),
                dma_config: DmaConfig {
                    count: (dma.count - 1) as usize,
                    active: dma.count != 1,
                    ..dma
                },
                ..*self
            }
        } else {
            Mmu { dma_config: DmaConfig { active: false, ..dma }, ..*self }
        }
    }

    /// The memory map after the next byte of a general-purpose or H-blank
    /// transfer is copied from the source to the destination.
    pub open spec fn with_block_byte(&self) -> Mmu {
        let dma = self.dma_config;
        let done = dma.length - dma.count;
        let written = self.with_write(
            (dma.gp_dest_address + done) as usize,
            self.read_value((dma.gp_source_address + done) as usize),
        );
        Mmu { dma_config: DmaConfig { count: (dma.count - 1) as usize, ..dma }, ..written }
    }

    /// The memory map after one step of a general-purpose transfer.
    pub open spec fn after_gp_step(&self) -> Mmu {
        if self.dma_config.count == 0 {
            Mmu { dma_config: DmaConfig { active: false, ..self.dma_config }, ..*self }
        } else {
            self.with_block_byte()
        }
    }

    /// The memory map after one step of an H-blank transfer: during an
    /// H-blank it copies up to 16 bytes, a byte a step; outside it gets
    /// ready for the next H-blank.
    pub open spec fn after_hblank_step(&self) -> Mmu {
        let dma = self.dma_config;
        if dma.count == 0 {
            Mmu { dma_config: DmaConfig { active: false, ..dma }, ..*self }
        } else if dma.halts_cpu(self.ppu.lcd_status.mode) {
            let copied = self.with_block_byte();
            Mmu {
                dma_config: DmaConfig {
                    hblank_count: (dma.hblank_count - 1) as usize,
                    ..copied.dma_config
                },
                ..copied
            }
        } else if self.ppu.lcd_status.mode != 0 {
            Mmu { dma_config: DmaConfig { hblank_count: 16, ..dma }, ..*self }
        } else {
            *self
        }
    }

    /// The memory map after one DMA step.
    #[verifier::opaque]
    pub open spec fn after_cycle(&self) -> Mmu {
        if self.dma_config.active || self.dma_config.count > 0 {
            match self.dma_config.dma_type {
                DmaType::Oam => self.after_oam_step(),
                DmaType::GeneralPurpose => self.after_gp_step(),
                DmaType::Hblank => self.after_hblank_step(),
            }
        } else {
            *self
        }
    }

    fn oam_dma_cycle(&mut self)
        requires
            old(self).wf(),
            old(self).dma_config.dma_type == DmaType::Oam,
        ensures
            *final(self) == old(self).after_oam_step(),
            final(self).wf(),
    {
        let count = self.dma_config.count;
        if count == 0xa1 {
            self.dma_config.count -= 1;
            self.dma_config.active = true;
        } else if 1 <= count && count <= 0xa0 {
            let source_address = self.dma_config.oam_source_address + 0xa0 - count;
            let dest_address = 0xa0 - count;
            let value = self.read_byte(source_address);
            self.ppu.store_sprite_byte(dest_address, value);
            self.dma_config.count -= 1;
            self.dma_config.active = count != 1;
        } else {
            self.dma_config.active = false;
        }
    }

    fn copy_block_byte(&mut self)
        requires
            old(self).wf(),
            old(self).dma_config.dma_type != DmaType::Oam,
            old(self).dma_config.count > 0,
        ensures
            *final(self) == old(self).with_block_byte(),
            final(self).wf(),
            final(self).dma_config.hblank_count == old(self).dma_config.hblank_count,
    {
        reveal(Mmu::with_write);
        let source_address = self.dma_config.gp_source_address + self.dma_config.length
            - self.dma_config.count;
        let dest_address = self.dma_config.gp_dest_address + self.dma_config.length
            - self.dma_config.count;
        let value = self.read_byte(source_address);
        self.write_byte(dest_address, value);
        self.dma_config.count -= 1;
    }

    fn gp_dma_cycle(&mut self)
        requires
            old(self).wf(),
            old(self).dma_config.dma_type == DmaType::GeneralPurpose,
        ensures
            *final(self) == old(self).after_gp_step(),
            final(self).wf(),
    {
        if self.dma_config.count == 0 {
            self.dma_config.active = false;
        } else {
            self.copy_block_byte();
        }
    }

    fn hblank_dma_cycle(&mut self)
        requires
            old(self).wf(),
            old(self).dma_config.dma_type == DmaType::Hblank,
        ensures
            *final(self) == old(self).after_hblank_step(),
            final(self).wf(),
    {
        if self.dma_config.count == 0 {
            self.dma_config.active = false;
        } else if self.dma_config.cpu_halted(self.ppu.lcd_status.mode) {
            self.copy_block_byte();
            self.dma_config.hblank_count -= 1;
        } else if self.ppu.lcd_status.mode != 0 {
            self.dma_config.hblank_count = 16;
        }
    }

    /// One step of the DMA engines.
    pub fn execute_cycle(&mut self)
        requires
            old(self).wf(),
        ensures
            *final(self) == old(self).after_cycle(),
            final(self).wf(),
    {
        reveal(Mmu::after_cycle);
        if self.dma_config.active || self.dma_config.count > 0 {
            match self.dma_config.dma_type {
                DmaType::Oam => self.oam_dma_cycle(),
                DmaType::GeneralPurpose => self.gp_dma_cycle(),
                DmaType::Hblank => self.hblank_dma_cycle(),
            }
        }
    }

    // ----- the units that the master clock drives -----
    /// The memory map after the picture unit and the timer have seen one
    /// master cycle: the cartridge clock moves by 15625 microseconds when
    /// it is due, the picture unit ticks when it is due, and the timer
    /// ticks always, clocking the audio frame sequencer and requesting its
    /// interrupt as its tick says.
    #[verifier::opaque]
    pub open spec fn with_clock_tick(&self, rtc_due: bool, video_due: bool) -> Mmu {
        let after_video = if video_due {
            self.ppu.interrupts_after(self.interrupt_controller)
        } else {
            self.interrupt_controller
        };
        Mmu {
            cartridge: if rtc_due {
                self.cartridge.with_elapsed(15_625)
            } else {
                self.cartridge
            },
            ppu: if video_due {
                self.ppu.after_cycle()
            } else {
                self.ppu
            },
            interrupt_controller: if self.timer.overflows() {
                after_video.with_request(0x04)
            } else {
                after_video
            },
            timer: self.timer.after_cycle(),
            sound_controller: if self.timer.frame_tick() {
                self.sound_controller.after_frame_tick()
            } else {
                self.sound_controller
            },
            ..*self
        }
    }

    /// The memory map after a tick of the audio unit.
    pub open spec fn with_audio_tick(&self) -> Mmu {
        Mmu { sound_controller: self.sound_controller.after_cycle(), ..*self }
    }

    /// Lets the cartridge clock, the picture unit and the timer see one
    /// master cycle. Returns whether the picture unit has a frame to show.
    pub fn clock_tick(&mut self, rtc_due: bool, video_due: bool) -> (r: bool)
        requires
            old(self).wf(),
        ensures
            *final(self) == old(self).with_clock_tick(rtc_due, video_due),
            final(self).wf(),
            r == (video_due && old(self).ppu.delivers_frame()),
            r && !old(self).ppu.lcdc.display_enable ==> forall|i: int|
                0 <= i < 69120 ==> final(self).ppu.frame_buffer[i] == 0xff,
    {
        reveal(Mmu::with_clock_tick);
        if rtc_due {
            self.cartridge.update_rtc(15_625);
        }
        let frame_ready = if video_due {
            self.ppu.execute_cycle(&mut self.interrupt_controller)
        } else {
            false
        };
        self.timer.execute_cycle(&mut self.interrupt_controller, &mut self.sound_controller);
        frame_ready
    }

    /// One tick of the audio unit.
    pub fn audio_tick(&mut self)
        requires
            old(self).wf(),
        ensures
            *final(self) == old(self).with_audio_tick(),
            final(self).wf(),
    {
        self.sound_controller.execute_cycle();
    }
}

/// The unused addresses behind the sprite table and every address above
/// 0xffff read as 0xff, and writes to them change nothing.
pub proof fn lemma_unmapped(mmu: Mmu, address: usize, value: u8)
    requires
        0xfea0 <= address < 0xff00 || address > 0xffff,
    ensures
        mmu.read_value(address) == 0xff,
        mmu.with_write(address, value) == mmu,
{
    reveal(Mmu::read_value);
    reveal(Mmu::with_write);
}

/// Once the boot image is switched off, no write brings it back: every
/// read below 0x8000 then comes from the cartridge.
pub proof fn lemma_overlay_stays_off(mmu: Mmu, address: usize, value: u8, at: usize)
    requires
        mmu.disable_boot_rom,
        at < 0x8000,
    ensures
        mmu.with_write(address, value).disable_boot_rom,
        !mmu.with_write(address, value).boot_overlay(at),
        mmu.read_value(at) == mmu.cartridge.read_value(at),
        mmu.with_write(0xff50, value).disable_boot_rom,
{
    reveal(Mmu::read_value);
    reveal(Mmu::with_write);
    reveal(Mmu::with_io_write);
}

/// A write to 0xff50 switches the boot image off, whatever is written.
pub proof fn lemma_overlay_switch(mmu: Mmu, value: u8, at: usize)
    requires
        at < 0x8000,
    ensures
        mmu.with_write(0xff50, value).read_value(at) == mmu.cartridge.read_value(at),
{
    reveal(Mmu::read_value);
    reveal(Mmu::with_write);
    reveal(Mmu::with_io_write);
}

} // verus!
