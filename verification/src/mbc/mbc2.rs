//! The second bank controller: a 4-bit ROM bank register and 512 half-bytes
//! of RAM inside the controller itself.

use vstd::prelude::*;
use crate::mbc::{Mbc, load_ram, loaded_ram, image_of, zero_extended, extend_with_zeros, bytes_of, bank_count,
    reduce_bank};

verus! {

pub struct Mbc2 {
    pub rom: Vec<u8>,
    pub ram: [u8; 0x200],
    pub ram_enabled: bool,
    pub rom_bank: u8,
    pub rom_size: u8,
    pub has_battery: bool,
}

impl Mbc2 {
    /// The ROM bank mapped at 0x4000.
    pub open spec fn bank(&self) -> int {
        (self.rom_bank as u64 % bank_count(self.rom_size)) as int
    }

    /// Takes the ROM image, of which byte 0x148 is the ROM size code (at
    /// most 3: 256 KiB), and the saved RAM. Saved RAM that is larger than
    /// the controller's RAM is discarded.
    pub fn new(rom: Vec<u8>, ram: &[u8], battery: bool) -> (r: Mbc2)
        requires
            0x149 <= rom@.len() <= 0x4_0000,
            rom@[0x148] <= 3,
        ensures
            r.wf(),
            r.rom@ == zero_extended(rom@, 0x4_0000),
            r.ram@ == loaded_ram(ram@, 0x200),
            !r.ram_enabled,
            r.rom_bank == 1,
            r.rom_size == rom@[0x148],
            r.has_battery == battery,
    {
        let rom_size = rom[0x148];
        let loaded = load_ram([0u8;0x200], ram);
        Mbc2 {
            rom: extend_with_zeros(rom, 0x4_0000),
            ram: loaded,
            ram_enabled: false,
            rom_bank: 1,
            rom_size,
            has_battery: battery,
        }
    }
}

impl Mbc for Mbc2 {
    open spec fn wf(&self) -> bool {
        &&& self.rom@.len() == 0x4_0000
        &&& 1 <= self.rom_bank <= 15
        &&& self.rom_size <= 3
    }

    /// RAM holds half-bytes: the high nibble of every RAM read is all ones,
    /// and the 512 cells repeat through the whole RAM window.
    open spec fn read_value(&self, address: usize) -> u8 {
        if address < 0x4000 {
            self.rom@[address as int]
        } else if address < 0x8000 {
            self.rom@[self.bank() * 0x4000 + (address - 0x4000)]
        } else if self.ram_enabled {
            self.ram[(address - 0xa000) % 0x200] | 0xf0
        } else {
            0xff
        }
    }

    /// Below 0x4000, bit 8 of the address tells a write to the RAM enable
    /// latch (clear) from one to the bank register (set).
    open spec fn with_write(&self, address: usize, value: u8) -> Mbc2 {
        if address < 0x4000 {
            if address & 0x0100 == 0 {
                Mbc2 { ram_enabled: value & 0x0f == 0x0a, ..*self }
            } else {
                Mbc2 {
                    rom_bank: if value & 0x0f == 0 {
                        1
                    } else {
                        value & 0x0f
                    },
                    ..*self
                }
            }
        } else if address < 0x8000 {
            *self
        } else if self.ram_enabled {
            Mbc2 {
                ram: vstd::array::spec_array_update(self.ram, (address - 0xa000) % 0x200, value),
                ..*self
            }
        } else {
            *self
        }
    }

    open spec fn with_elapsed(&self, micros: u64) -> Mbc2 {
        *self
    }

    open spec fn save_image(&self, now_millis: u64) -> Option<Seq<u8>> {
        if self.has_battery {
            Some(self.ram@)
        } else {
            None
        }
    }

    fn read(&self, address: usize) -> (r: u8) {
        if address < 0x4000 {
            self.rom[address]
        } else if address < 0x8000 {
            proof {
                crate::mbc::lemma_bank_count(self.rom_size);
            }
            let rom_bank = reduce_bank(self.rom_bank as u64, self.rom_size) as usize;
            let rom_address = rom_bank * 0x4000 + (address - 0x4000);
            self.rom[rom_address]
        } else if self.ram_enabled {
            let ram_address = (address - 0xa000) % 0x200;
            self.ram[ram_address] | 0xf0
        } else {
            0xff
        }
    }

    fn write(&mut self, address: usize, value: u8) {
        proof {
            crate::bits::lemma_field_bounds(value);
        }
        if address < 0x4000 {
            if address & 0x0100 == 0x0000 {
                self.ram_enabled = value & 0x0f == 0x0a;
            } else {
                self.rom_bank = if value & 0x0f == 0 {
                    1
                } else {
                    value & 0x0f
                };
            }
        } else if address < 0x8000 {
        } else if self.ram_enabled {
            let ram_address = (address - 0xa000) % 0x200;
            self.ram[ram_address] = value;
        }
    }

    fn update_rtc(&mut self, micros: u64) {
    }

    fn save(&self) -> (r: Option<Vec<u8>>) {
        let saved = if self.has_battery {
            Some(bytes_of(&self.ram))
        } else {
            None
        };
        assert(image_of(saved) == self.save_image(0));
        saved
    }
}

} // verus!
