//! A cartridge without a bank controller: 32 KiB of ROM and 8 KiB of RAM.

use vstd::prelude::*;
use crate::mbc::{Mbc, overlay, image_of};

verus! {

pub struct NoMbc {
    pub rom: [u8; 0x8000],
    pub ram: [u8; 0x2000],
}

impl NoMbc {
    /// Takes the ROM image, which fills the start of the 32 KiB window; the
    /// rest of the window and the RAM read as zero.
    pub fn new(rom: Vec<u8>) -> (r: NoMbc)
        requires
            rom@.len() <= 0x8000,
        ensures
            r.wf(),
            forall|i: int|
                0 <= i < 0x8000 ==> r.rom[i] == (if i < rom@.len() {
                    rom@[i]
                } else {
                    0u8
                }),
            forall|i: int| 0 <= i < 0x2000 ==> r.ram[i] == 0,
    {
        NoMbc { rom: overlay([0u8;0x8000], rom.as_slice()), ram: [0u8;0x2000] }
    }
}

impl Mbc for NoMbc {
    open spec fn wf(&self) -> bool {
        true
    }

    open spec fn read_value(&self, address: usize) -> u8 {
        if address < 0x8000 {
            self.rom[address as int]
        } else {
            self.ram[address - 0xa000]
        }
    }

    open spec fn with_write(&self, address: usize, value: u8) -> NoMbc {
        if address < 0x8000 {
            *self
        } else {
            NoMbc {
                ram: vstd::array::spec_array_update(self.ram, address - 0xa000, value),
                ..*self
            }
        }
    }

    open spec fn with_elapsed(&self, micros: u64) -> NoMbc {
        *self
    }

    open spec fn save_image(&self, now_millis: u64) -> Option<Seq<u8>> {
        None
    }

    fn read(&self, address: usize) -> (r: u8) {
        if address < 0x8000 {
            self.rom[address]
        } else {
            self.ram[address - 0xa000]
        }
    }

    fn write(&mut self, address: usize, value: u8) {
        if address < 0x8000 {
        } else {
            self.ram[address - 0xa000] = value;
        }
    }

    fn update_rtc(&mut self, micros: u64) {
    }

    fn save(&self) -> (r: Option<Vec<u8>>) {
        assert(image_of(None) == self.save_image(0));
        None
    }
}

} // verus!
