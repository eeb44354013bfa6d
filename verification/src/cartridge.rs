//! A cartridge: the bank controller that its header names, with the ROM
//! image and the save data loaded into it.

use vstd::prelude::*;
use vstd::string::StringExecFns;
use crate::mbc::{Mbc, NoMbc, Mbc1, Mbc2, MBC3, MBC5, image_of, in_cartridge_window, zero_extended,
    loaded_ram};
use crate::mbc::mbc3::{restored_ram, restored_rtc};

verus! {

/// Offset of the cartridge type in the ROM header.
pub const HEADER_TYPE: usize = 0x147;

/// Why a ROM image cannot be run.
#[derive(Copy, Clone, Debug, PartialEq, Eq)]
pub enum CartridgeError {
    /// The header names a cartridge type that is not supported; the type
    /// byte is attached.
    UnsupportedCartridge(u8),
}

/// The families of bank controller.
#[derive(Copy, Clone, Debug, PartialEq, Eq, Structural)]
pub enum Family {
    Plain,
    One,
    Two,
    Three,
    Five,
}

/// What the cartridge type byte of the header says about the cartridge.
#[derive(Copy, Clone, Debug)]
pub struct Features {
    pub family: Family,
    pub battery: bool,
    pub rtc: bool,
}

/// The supported cartridge types and what each stands for.
pub open spec fn features_of(kind: u8) -> Option<Features> {
    match kind {
        0x00 => Some(Features { family: Family::Plain, battery: false, rtc: false }),
        0x01 | 0x02 => Some(Features { family: Family::One, battery: false, rtc: false }),
        0x03 => Some(Features { family: Family::One, battery: true, rtc: false }),
        0x05 => Some(Features { family: Family::Two, battery: false, rtc: false }),
        0x06 => Some(Features { family: Family::Two, battery: true, rtc: false }),
        0x0f => Some(Features { family: Family::Three, battery: false, rtc: true }),
        0x10 => Some(Features { family: Family::Three, battery: true, rtc: true }),
        0x11 | 0x12 => Some(Features { family: Family::Three, battery: false, rtc: false }),
        0x13 => Some(Features { family: Family::Three, battery: true, rtc: false }),
        0x19 | 0x1a | 0x1c | 0x1d => Some(
            Features { family: Family::Five, battery: false, rtc: false },
        ),
        0x1b | 0x1e => Some(Features { family: Family::Five, battery: true, rtc: false }),
        _ => None,
    }
}

/// The largest ROM image that a controller family can address.
pub open spec fn rom_capacity(family: Family) -> nat {
    match family {
        Family::Plain => 0x8000,
        Family::One => 0x20_0000,
        Family::Two => 0x4_0000,
        Family::Three => 0x20_0000,
        Family::Five => 0x80_0000,
    }
}

/// The largest ROM size code that a controller family accepts.
pub open spec fn size_code_limit(family: Family) -> u8 {
    match family {
        Family::Two => 3,
        _ => 62,
    }
}

/// Whether a ROM image can be loaded: it holds a header, and if the header
/// names a supported type, the image fits the controller and its size code
/// is one the controller accepts.
pub open spec fn rom_loadable(rom: Seq<u8>) -> bool {
    &&& rom.len() >= 0x14a
    &&& match features_of(rom[HEADER_TYPE as int]) {
        Some(f) => rom.len() <= rom_capacity(f.family) && (f.family != Family::Plain
            ==> rom[0x148] <= size_code_limit(f.family)),
        None => true,
    }
}

/// Decodes the cartridge type byte.
pub fn cartridge_features(kind: u8) -> (r: Option<Features>)
    ensures
        r == features_of(kind),
{
    match kind {
        0x00 => Some(Features { family: Family::Plain, battery: false, rtc: false }),
        0x01 | 0x02 => Some(Features { family: Family::One, battery: false, rtc: false }),
        0x03 => Some(Features { family: Family::One, battery: true, rtc: false }),
        0x05 => Some(Features { family: Family::Two, battery: false, rtc: false }),
        0x06 => Some(Features { family: Family::Two, battery: true, rtc: false }),
        0x0f => Some(Features { family: Family::Three, battery: false, rtc: true }),
        0x10 => Some(Features { family: Family::Three, battery: true, rtc: true }),
        0x11 | 0x12 => Some(Features { family: Family::Three, battery: false, rtc: false }),
        0x13 => Some(Features { family: Family::Three, battery: true, rtc: false }),
        0x19 | 0x1a | 0x1c | 0x1d => Some(
            Features { family: Family::Five, battery: false, rtc: false },
        ),
        0x1b | 0x1e => Some(Features { family: Family::Five, battery: true, rtc: false }),
        _ => None,
    }
}

/// Checks whether a ROM image can be loaded.
pub fn rom_is_loadable(rom: &[u8]) -> (r: bool)
    ensures
        r == rom_loadable(rom@),
{
    if rom.len() < 0x14a {
        return false;
    }
    match cartridge_features(rom[HEADER_TYPE]) {
        None => true,
        Some(f) => match f.family {
            Family::Plain => rom.len() <= 0x8000,
            Family::One => rom.len() <= 0x20_0000 && rom[0x148] <= 62,
            Family::Two => rom.len() <= 0x4_0000 && rom[0x148] <= 3,
            Family::Three => rom.len() <= 0x20_0000 && rom[0x148] <= 62,
            Family::Five => rom.len() <= 0x80_0000 && rom[0x148] <= 62,
        },
    }
}

/// The name of the save file of a ROM file: the ROM file's name with
/// `.save` behind it.
pub fn save_file_name(rom_path: &str) -> (r: String)
    ensures
        r@ == rom_path@ + ".save"@,
{
    let mut name = rom_path.to_owned();
    name.append(".save");
    name
}

/// The controller of a cartridge, one shape per family.
pub enum Controller {
    Plain(NoMbc),
    One(Mbc1),
    Two(Mbc2),
    Three(MBC3),
    Five(MBC5),
}

pub struct Cartridge {
    pub mbc: Controller,
}

impl Cartridge {
    pub open spec fn wf(&self) -> bool {
        match self.mbc {
            Controller::Plain(m) => m.wf(),
            Controller::One(m) => m.wf(),
            Controller::Two(m) => m.wf(),
            Controller::Three(m) => m.wf(),
            Controller::Five(m) => m.wf(),
        }
    }

    pub open spec fn family(&self) -> Family {
        match self.mbc {
            Controller::Plain(_) => Family::Plain,
            Controller::One(_) => Family::One,
            Controller::Two(_) => Family::Two,
            Controller::Three(_) => Family::Three,
            Controller::Five(_) => Family::Five,
        }
    }

    pub open spec fn read_value(&self, address: usize) -> u8 {
        match self.mbc {
            Controller::Plain(m) => m.read_value(address),
            Controller::One(m) => m.read_value(address),
            Controller::Two(m) => m.read_value(address),
            Controller::Three(m) => m.read_value(address),
            Controller::Five(m) => m.read_value(address),
        }
    }

    pub open spec fn with_write(&self, address: usize, value: u8) -> Cartridge {
        match self.mbc {
            Controller::Plain(m) => Cartridge {
                mbc: Controller::Plain(m.with_write(address, value)),
            },
            Controller::One(m) => Cartridge { mbc: Controller::One(m.with_write(address, value)) },
            Controller::Two(m) => Cartridge { mbc: Controller::Two(m.with_write(address, value)) },
            Controller::Three(m) => Cartridge {
                mbc: Controller::Three(m.with_write(address, value)),
            },
            Controller::Five(m) => Cartridge {
                mbc: Controller::Five(m.with_write(address, value)),
            },
        }
    }

    pub open spec fn with_elapsed(&self, micros: u64) -> Cartridge {
        match self.mbc {
            Controller::Plain(m) => Cartridge { mbc: Controller::Plain(m.with_elapsed(micros)) },
            Controller::One(m) => Cartridge { mbc: Controller::One(m.with_elapsed(micros)) },
            Controller::Two(m) => Cartridge { mbc: Controller::Two(m.with_elapsed(micros)) },
            Controller::Three(m) => Cartridge { mbc: Controller::Three(m.with_elapsed(micros)) },
            Controller::Five(m) => Cartridge { mbc: Controller::Five(m.with_elapsed(micros)) },
        }
    }

    pub open spec fn save_image(&self, now_millis: u64) -> Option<Seq<u8>> {
        match self.mbc {
            Controller::Plain(m) => m.save_image(now_millis),
            Controller::One(m) => m.save_image(now_millis),
            Controller::Two(m) => m.save_image(now_millis),
            Controller::Three(m) => m.save_image(now_millis),
            Controller::Five(m) => m.save_image(now_millis),
        }
    }

    /// Whether this is the cartridge that `rom` and `save_data` make at
    /// `now_micros` microseconds of wall-clock time: the controller of the
    /// family that the header names, its bank registers at their power-on
    /// values, the ROM image zero-extended to the family's capacity, and the
    /// RAM and clock restored from the save data if the cartridge has a
    /// battery or a clock.
    pub open spec fn built_from(&self, rom: Seq<u8>, save_data: Seq<u8>, now_micros: u64) -> bool {
        match features_of(rom[HEADER_TYPE as int]) {
            None => false,
            Some(f) => {
                let saved = if f.battery {
                    save_data
                } else {
                    Seq::<u8>::empty()
                };
                match self.mbc {
                    Controller::Plain(m) => {
                        &&& f.family == Family::Plain
                        &&& m.rom@ == zero_extended(rom, 0x8000)
                        &&& m.ram@ == zero_extended(Seq::empty(), 0x2000)
                    },
                    Controller::One(m) => {
                        &&& f.family == Family::One
                        &&& m.rom@ == zero_extended(rom, 0x20_0000)
                        &&& m.ram@ == loaded_ram(saved, 0x8000)
                        &&& !m.ram_enabled && m.bank1 == 1 && m.bank2 == 0 && !m.mode
                        &&& m.rom_size == rom[0x148] && m.ram_size == rom[0x149]
                        &&& m.has_battery == f.battery
                    },
                    Controller::Two(m) => {
                        &&& f.family == Family::Two
                        &&& m.rom@ == zero_extended(rom, 0x4_0000)
                        &&& m.ram@ == loaded_ram(saved, 0x200)
                        &&& !m.ram_enabled && m.rom_bank == 1
                        &&& m.rom_size == rom[0x148]
                        &&& m.has_battery == f.battery
                    },
                    Controller::Three(m) => {
                        let kept = if f.battery || f.rtc {
                            save_data
                        } else {
                            Seq::<u8>::empty()
                        };
                        &&& f.family == Family::Three
                        &&& m.rom@ == zero_extended(rom, 0x20_0000)
                        &&& m.ram@ == restored_ram(kept, f.battery, f.rtc)
                        &&& m.rtc == restored_rtc(kept, f.battery, f.rtc, now_micros)
                        &&& !m.ram_timer_enabled && m.rom_bank == 1 && m.ram_timer_select == 0
                        &&& m.rom_size == rom[0x148]
                        &&& m.has_battery == f.battery && m.has_rtc == f.rtc
                    },
                    Controller::Five(m) => {
                        &&& f.family == Family::Five
                        &&& m.rom@ == zero_extended(rom, 0x80_0000)
                        &&& m.ram@ == loaded_ram(saved, 0x2_0000)
                        &&& !m.ram_enabled && m.rom_bank_l == 1 && m.rom_bank_h == 0 && m.ram_bank
                            == 0
                        &&& m.rom_size == rom[0x148]
                        &&& m.has_battery == f.battery
                    },
                }
            },
        }
    }

    /// Builds the cartridge for a ROM image and the contents of its save
    /// file (empty if there is none). Fails exactly when the header names an
    /// unsupported cartridge type. For a cartridge with a clock the wall
    /// clock is read to move the saved clock forward.
    pub fn new(rom: Vec<u8>, save_data: &[u8]) -> (r: Result<Cartridge, CartridgeError>)
        requires
            rom_loadable(rom@),
        ensures
            match r {
                Ok(cartridge) => {
                    &&& features_of(rom@[HEADER_TYPE as int]) is Some
                    &&& cartridge.wf()
                    &&& exists|now_micros: u64| #[trigger]
                        cartridge.built_from(rom@, save_data@, now_micros)
                },
                Err(e) => {
                    &&& features_of(rom@[HEADER_TYPE as int]) is None
                    &&& e == CartridgeError::UnsupportedCartridge(rom@[HEADER_TYPE as int])
                },
            },
    {
        let kind = rom[HEADER_TYPE];
        let ghost image = rom@;
        let features = match cartridge_features(kind) {
            Some(f) => f,
            None => {
                return Err(CartridgeError::UnsupportedCartridge(kind));
            },
        };
        let nothing: [u8; 0] = [];
        let saved: &[u8] = if features.battery {
            save_data
        } else {
            nothing.as_slice()
        };
        assert(saved@ =~= (if features.battery {
            save_data@
        } else {
            Seq::<u8>::empty()
        }));
        let cartridge = match features.family {
            Family::Plain => {
                let m = NoMbc::new(rom);
                assert(m.rom@ =~= zero_extended(image, 0x8000));
                assert(m.ram@ =~= zero_extended(Seq::empty(), 0x2000));
                let c = Cartridge { mbc: Controller::Plain(m) };
                assert(c.built_from(image, save_data@, 0));
                c
            },
            Family::One => {
                let c = Cartridge {
                    mbc: Controller::One(Mbc1::new(rom, saved, features.battery)),
                };
                assert(c.built_from(image, save_data@, 0));
                c
            },
            Family::Two => {
                let c = Cartridge {
                    mbc: Controller::Two(Mbc2::new(rom, saved, features.battery)),
                };
                assert(c.built_from(image, save_data@, 0));
                c
            },
            Family::Three => {
                let kept: &[u8] = if features.battery || features.rtc {
                    save_data
                } else {
                    nothing.as_slice()
                };
                assert(kept@ =~= (if features.battery || features.rtc {
                    save_data@
                } else {
                    Seq::<u8>::empty()
                }));
                let m = MBC3::new(rom, kept, features.battery, features.rtc);
                let ghost now = choose|now: u64|
                    m.rtc == #[trigger] restored_rtc(kept@, features.battery, features.rtc, now);
                let c = Cartridge { mbc: Controller::Three(m) };
                assert(c.built_from(image, save_data@, now));
                c
            },
            Family::Five => {
                let c = Cartridge {
                    mbc: Controller::Five(MBC5::new(rom, saved, features.battery)),
                };
                assert(c.built_from(image, save_data@, 0));
                c
            },
        };
        Ok(cartridge)
    }

    /// The bytes to write to the save file now, or nothing for a cartridge
    /// without battery and clock. Whatever the wall clock says, they are the
    /// save image of some moment.
    pub fn save(&mut self) -> (r: Option<Vec<u8>>)
        requires
            old(self).wf(),
        ensures
            *final(self) == *old(self),
            exists|now_millis: u64| image_of(r) == #[trigger] old(self).save_image(now_millis),
    {
        let saved = match &self.mbc {
            Controller::Plain(m) => m.save(),
            Controller::One(m) => m.save(),
            Controller::Two(m) => m.save(),
            Controller::Three(m) => m.save(),
            Controller::Five(m) => m.save(),
        };
        proof {
            let now = match &self.mbc {
                Controller::Plain(m) => choose|now: u64|
                    image_of(saved) == #[trigger] m.save_image(now),
                Controller::One(m) => choose|now: u64|
                    image_of(saved) == #[trigger] m.save_image(now),
                Controller::Two(m) => choose|now: u64|
                    image_of(saved) == #[trigger] m.save_image(now),
                Controller::Three(m) => choose|now: u64|
                    image_of(saved) == #[trigger] m.save_image(now),
                Controller::Five(m) => choose|now: u64|
                    image_of(saved) == #[trigger] m.save_image(now),
            };
            assert(image_of(saved) == self.save_image(now));
        }
        saved
    }

    pub fn read(&self, address: usize) -> (r: u8)
        requires
            self.wf(),
            in_cartridge_window(address),
        ensures
            r == self.read_value(address),
    {
        match &self.mbc {
            Controller::Plain(m) => m.read(address),
            Controller::One(m) => m.read(address),
            Controller::Two(m) => m.read(address),
            Controller::Three(m) => m.read(address),
            Controller::Five(m) => m.read(address),
        }
    }

    pub fn write(&mut self, address: usize, value: u8)
        requires
            old(self).wf(),
            in_cartridge_window(address),
        ensures
            *final(self) == old(self).with_write(address, value),
            final(self).wf(),
    {
        match &mut self.mbc {
            Controller::Plain(m) => m.write(address, value),
            Controller::One(m) => m.write(address, value),
            Controller::Two(m) => m.write(address, value),
            Controller::Three(m) => m.write(address, value),
            Controller::Five(m) => m.write(address, value),
        }
    }

    /// Lets `micros` microseconds pass on the cartridge's clock, if it has
    /// one.
    pub fn update_rtc(&mut self, micros: u64)
        requires
            old(self).wf(),
        ensures
            *final(self) == old(self).with_elapsed(micros),
            final(self).wf(),
    {
        match &mut self.mbc {
            Controller::Plain(m) => m.update_rtc(micros),
            Controller::One(m) => m.update_rtc(micros),
            Controller::Two(m) => m.update_rtc(micros),
            Controller::Three(m) => m.update_rtc(micros),
            Controller::Five(m) => m.update_rtc(micros),
        }
    }
}

} // verus!
