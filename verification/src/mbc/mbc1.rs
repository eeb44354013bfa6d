//! The first bank controller: a 5-bit ROM bank register, a 2-bit register
//! that extends it or selects the RAM bank, and a mode bit that says which.

use vstd::prelude::*;
use crate::mbc::{Mbc, load_ram, loaded_ram, image_of, zero_extended, extend_with_zeros, bytes_of, bank_count,
    lemma_bank_count, reduce_bank};

verus! {

pub struct Mbc1 {
    pub rom: Vec<u8>,
    pub ram: [u8; 0x8000],
    pub ram_enabled: bool,
    pub bank1: usize,
    pub bank2: usize,
    pub mode: bool,
    pub rom_size: u8,
    pub ram_size: u8,
    pub has_battery: bool,
}

impl Mbc1 {
    /// The ROM bank mapped at 0x4000: the primary register, extended by the
    /// secondary one on cartridges of 512 KiB and more (size code above 4),
    /// modulo the number of banks.
    pub open spec fn rom_bank(&self) -> int {
        ((if self.rom_size > 4 {
            (self.bank2 * 32 + self.bank1) as u64
        } else {
            self.bank1 as u64
        }) % bank_count(self.rom_size)) as int
    }

    /// The first byte of the RAM bank mapped at 0xa000.
    pub open spec fn ram_base(&self) -> int {
        if self.mode && self.ram_size > 2 {
            self.bank2 * 0x2000
        } else {
            0
        }
    }

    /// The first byte of the ROM bank mapped at 0x0000.
    pub open spec fn low_base(&self) -> int {
        if self.mode && self.rom_size > 4 {
            self.bank2 * 32 * 0x4000
        } else {
            0
        }
    }

    /// Takes the ROM image, of which bytes 0x148 and 0x149 are the ROM and
    /// RAM size codes, and the saved RAM. Saved RAM that is larger than the
    /// cartridge's RAM is discarded.
    pub fn new(rom: Vec<u8>, ram: &[u8], battery: bool) -> (r: Mbc1)
        requires
            0x14a <= rom@.len() <= 0x20_0000,
            rom@[0x148] <= 62,
        ensures
            r.wf(),
            r.rom@ == zero_extended(rom@, 0x20_0000),
            r.ram@ == loaded_ram(ram@, 0x8000),
            !r.ram_enabled,
            r.bank1 == 1,
            r.bank2 == 0,
            !r.mode,
            r.rom_size == rom@[0x148],
            r.ram_size == rom@[0x149],
            r.has_battery == battery,
    {
        let rom_size = rom[0x148];
        let ram_size = rom[0x149];
        let loaded = load_ram([0u8;0x8000], ram);
        Mbc1 {
            rom: extend_with_zeros(rom, 0x20_0000),
            ram: loaded,
            ram_enabled: false,
            bank1: 1,
            bank2: 0,
            mode: false,
            rom_size,
            ram_size,
            has_battery: battery,
        }
    }
}

impl Mbc for Mbc1 {
    open spec fn wf(&self) -> bool {
        &&& self.rom@.len() == 0x20_0000
        &&& 1 <= self.bank1 <= 31
        &&& self.bank2 <= 3
        &&& self.rom_size <= 62
    }

    open spec fn read_value(&self, address: usize) -> u8 {
        if address < 0x4000 {
            self.rom@[self.low_base() + address]
        } else if address < 0x8000 {
            self.rom@[self.rom_bank() * 0x4000 + (address - 0x4000)]
        } else if self.ram_enabled {
            self.ram[self.ram_base() + (address - 0xa000)]
        } else {
            0xff
        }
    }

    open spec fn with_write(&self, address: usize, value: u8) -> Mbc1 {
        if address < 0x2000 {
            Mbc1 { ram_enabled: value & 0x0f == 0x0a, ..*self }
        } else if address < 0x4000 {
            Mbc1 {
                bank1: if value & 0x1f == 0 {
                    1
                } else {
                    (value & 0x1f) as usize
                },
                ..*self
            }
        } else if address < 0x6000 {
            Mbc1 { bank2: (value & 0x03) as usize, ..*self }
        } else if address < 0x8000 {
            Mbc1 { mode: value & 0x01 == 0x01, ..*self }
        } else if self.ram_enabled {
            Mbc1 {
                ram: vstd::array::spec_array_update(
                    self.ram,
                    self.ram_base() + (address - 0xa000),
                    value,
                ),
                ..*self
            }
        } else {
            *self
        }
    }

    open spec fn with_elapsed(&self, micros: u64) -> Mbc1 {
        *self
    }

    open spec fn save_image(&self, now_millis: u64) -> Option<Seq<u8>> {
        if self.has_battery {
            Some(self.ram@)
        } else {
            None
        }
    }

    fn read(&self, address: usize) -> (r: u8) {
        if address < 0x4000 {
            if self.mode && self.rom_size > 4 {
                let rom_address = (self.bank2 * 32) * 0x4000 + address;
                self.rom[rom_address]
            } else {
                self.rom[address]
            }
        } else if address < 0x8000 {
            let selected: u64 = if self.rom_size > 4 {
                (self.bank2 * 32 + self.bank1) as u64
            } else {
                self.bank1 as u64
            };
            let rom_bank = reduce_bank(selected, self.rom_size) as usize;
            let rom_address = rom_bank * 0x4000 + (address - 0x4000);
            self.rom[rom_address]
        } else if self.ram_enabled {
            if self.mode && self.ram_size > 2 {
                let ram_address = self.bank2 * 0x2000 + (address - 0xa000);
                self.ram[ram_address]
            } else {
                let ram_address = address - 0xa000;
                self.ram[ram_address]
            }
        } else {
            0xff
        }
    }

    fn write(&mut self, address: usize, value: u8) {
        proof {
            crate::bits::lemma_field_bounds(value);
        }
        if address < 0x2000 {
            self.ram_enabled = value & 0x0f == 0x0a;
        } else if address < 0x4000 {
            self.bank1 = if value & 0x1f == 0 {
                1
            } else {
                (value & 0x1f) as usize
            };
        } else if address < 0x6000 {
            self.bank2 = (value & 0x03) as usize;
        } else if address < 0x8000 {
            self.mode = value & 0x1 == 0x1;
        } else if self.ram_enabled {
            if self.mode && self.ram_size > 2 {
                let ram_address = self.bank2 * 0x2000 + (address - 0xa000);
                self.ram[ram_address] = value;
            } else {
                let ram_address = address - 0xa000;
                self.ram[ram_address] = value;
            }
        }
    }

    fn update_rtc(&mut self, micros: u64) {
    }

    fn save(&self) -> (r: Option<Vec<u8>>) {
        let saved = if self.has_battery {
            Some(bytes_of(&self.ram))
        } else {
            None
        };
        assert(image_of(saved) == self.save_image(0));
        saved
    }
}

/// On a cartridge of 512 KiB or more, after `value` is written to the
/// primary bank register, a read at 0x4000 to 0x7fff returns the byte at the
/// same offset of bank `((secondary << 5) | primary) mod banks`, where
/// `primary` is the low five bits of `value`, or 1 if those are zero.
pub proof fn lemma_mbc1_bank_select(mbc: Mbc1, value: u8, address: usize)
    requires
        mbc.wf(),
        mbc.rom_size > 4,
        0x4000 <= address < 0x8000,
    ensures
        ({
            let primary: u8 = if value & 0x1f == 0 {
                1
            } else {
                value & 0x1f
            };
            let bank = ((((mbc.bank2 as u8) << 5) | primary) as u64 % bank_count(
                mbc.rom_size,
            )) as int;
            &&& bank < 128
            &&& mbc.with_write(0x2000, value).read_value(address) == mbc.rom@[bank * 0x4000 + (
            address - 0x4000)]
        }),
{
    let primary: u8 = if value & 0x1f == 0 {
        1
    } else {
        value & 0x1f
    };
    let secondary = mbc.bank2 as u8;
    lemma_bank_count(mbc.rom_size);
    assert(primary <= 31 && ((secondary << 5) | primary) == secondary * 32 + primary) by (bit_vector)
        requires
            secondary <= 3,
            primary == (if value & 0x1f == 0 {
                1
            } else {
                value & 0x1f
            }),
    ;
    let selected = (secondary * 32 + primary) as u64;
    let banks = bank_count(mbc.rom_size);
    assert(selected % banks <= selected) by (nonlinear_arith)
        requires
            banks >= 2,
    ;
}

/// Writing zero to the primary bank register selects bank 1: with the
/// secondary register at zero, 0x4000 then reads the first byte of bank 1.
pub proof fn lemma_mbc1_zero_selects_bank_one(mbc: Mbc1, address: usize)
    requires
        mbc.wf(),
        mbc.bank2 == 0,
        0x4000 <= address < 0x8000,
    ensures
        mbc.with_write(0x2000, 0).bank1 == 1,
        mbc.with_write(0x2000, 0).read_value(address) == mbc.rom@[0x4000 + (address - 0x4000)],
{
    lemma_bank_count(mbc.rom_size);
    assert(0u8 & 0x1f == 0) by (bit_vector);
    let banks = bank_count(mbc.rom_size);
    assert(1u64 % banks == 1) by (nonlinear_arith)
        requires
            banks >= 2,
    ;
}

} // verus!
