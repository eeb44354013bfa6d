//! The fifth bank controller: a 9-bit ROM bank register, written as a low
//! byte and a high bit, and a 4-bit RAM bank register.

use vstd::prelude::*;
use crate::mbc::{Mbc, load_ram, loaded_ram, image_of, zero_extended, extend_with_zeros, bytes_of, bank_count,
    reduce_bank};

verus! {

pub struct MBC5 {
    pub rom: Vec<u8>,
    pub ram: [u8; 0x2_0000],
    pub ram_enabled: bool,
    pub rom_bank_l: u8,
    pub rom_bank_h: u8,
    pub ram_bank: u8,
    pub rom_size: u8,
    pub has_battery: bool,
}

impl MBC5 {
    /// The ROM bank mapped at 0x4000. Bank 0 can be selected: there is no
    /// remapping of zero.
    pub open spec fn bank(&self) -> int {
        ((self.rom_bank_h * 256 + self.rom_bank_l) as u64 % bank_count(self.rom_size)) as int
    }

    /// Takes the ROM image, of which byte 0x148 is the ROM size code, and
    /// the saved RAM. Saved RAM that is larger than the cartridge's RAM is
    /// discarded.
    pub fn new(rom: Vec<u8>, ram: &[u8], battery: bool) -> (r: MBC5)
        requires
            0x149 <= rom@.len() <= 0x80_0000,
            rom@[0x148] <= 62,
        ensures
            r.wf(),
            r.rom@ == zero_extended(rom@, 0x80_0000),
            r.ram@ == loaded_ram(ram@, 0x2_0000),
            !r.ram_enabled,
            r.rom_bank_l == 1,
            r.rom_bank_h == 0,
            r.ram_bank == 0,
            r.rom_size == rom@[0x148],
            r.has_battery == battery,
    {
        let rom_size = rom[0x148];
        let loaded = load_ram([0u8;0x2_0000], ram);
        MBC5 {
            rom: extend_with_zeros(rom, 0x80_0000),
            ram: loaded,
            ram_enabled: false,
            rom_bank_l: 1,
            rom_bank_h: 0,
            ram_bank: 0,
            rom_size,
            has_battery: battery,
        }
    }
}

impl Mbc for MBC5 {
    open spec fn wf(&self) -> bool {
        &&& self.rom@.len() == 0x80_0000
        &&& self.rom_bank_h <= 1
        &&& self.ram_bank <= 15
        &&& self.rom_size <= 62
    }

    open spec fn read_value(&self, address: usize) -> u8 {
        if address < 0x4000 {
            self.rom@[address as int]
        } else if address < 0x8000 {
            self.rom@[self.bank() * 0x4000 + (address - 0x4000)]
        } else if self.ram_enabled {
            self.ram[self.ram_bank * 0x2000 + (address - 0xa000)]
        } else {
            0xff
        }
    }

    open spec fn with_write(&self, address: usize, value: u8) -> MBC5 {
        if address < 0x2000 {
            MBC5 { ram_enabled: value & 0x0f == 0x0a, ..*self }
        } else if address < 0x3000 {
            MBC5 { rom_bank_l: value, ..*self }
        } else if address < 0x4000 {
            MBC5 { rom_bank_h: value & 0x01, ..*self }
        } else if address < 0x6000 {
            MBC5 { ram_bank: value & 0x0f, ..*self }
        } else if address < 0x8000 {
            *self
        } else if self.ram_enabled {
            MBC5 {
                ram: vstd::array::spec_array_update(
                    self.ram,
                    self.ram_bank * 0x2000 + (address - 0xa000),
                    value,
                ),
                ..*self
            }
        } else {
            *self
        }
    }

    open spec fn with_elapsed(&self, micros: u64) -> MBC5 {
        *self
    }

    open spec fn save_image(&self, now_millis: u64) -> Option<Seq<u8>> {
        if self.has_battery {
            Some(self.ram@)
        } else {
            None
        }
    }

    fn write(&mut self, address: usize, value: u8) {
        proof {
            crate::bits::lemma_field_bounds(value);
        }
        if address < 0x2000 {
            self.ram_enabled = value & 0x0f == 0x0a;
        } else if address < 0x3000 {
            self.rom_bank_l = value;
        } else if address < 0x4000 {
            self.rom_bank_h = value & 0x01;
        } else if address < 0x6000 {
            self.ram_bank = value & 0x0f;
        } else if address < 0x8000 {
        } else if self.ram_enabled {
            let ram_address = (self.ram_bank as usize) * 0x2000 + (address - 0xa000);
            self.ram[ram_address] = value;
        }
    }

    fn read(&self, address: usize) -> (r: u8) {
        if address < 0x4000 {
            self.rom[address]
        } else if address < 0x8000 {
            let selected: u64 = (self.rom_bank_h as u64) * 256 + self.rom_bank_l as u64;
            let rom_bank = reduce_bank(selected, self.rom_size) as usize;
            let rom_address = (rom_bank * 0x4000) + (address - 0x4000);
            self.rom[rom_address]
        } else if self.ram_enabled {
            let ram_address = (self.ram_bank as usize) * 0x2000 + (address - 0xa000);
            self.ram[ram_address]
        } else {
            0xff
        }
    }

    fn update_rtc(&mut self, micros: u64) {
    }

    fn save(&self) -> (r: Option<Vec<u8>>) {
        let saved = if self.has_battery {
            Some(bytes_of(&self.ram))
        } else {
            None
        };
        assert(image_of(saved) == self.save_image(0));
        saved
    }
}

} // verus!
