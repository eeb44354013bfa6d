//! The control and status registers of the picture unit and the attribute
//! byte of a background map entry.

use vstd::prelude::*;
use crate::bits::{mask_if, lemma_field_bounds};

verus! {

/// The attributes of a background map entry on the colour machine (bank 1
/// of the tile maps).
#[derive(Copy, Clone, Debug)]
pub struct BGMapAttributes {
    pub bg_oam_priority: bool,
    pub vertical_flip: bool,
    pub horizontal_flip: bool,
    pub unused: bool,
    pub vram_bank: bool,
    pub palette: u8,
}

impl Default for BGMapAttributes {
    fn default() -> (r: BGMapAttributes)
        ensures
            r == BGMapAttributes::of_bits(0),
    {
        assert(0u8 & 0x80 == 0 && 0u8 & 0x40 == 0 && 0u8 & 0x20 == 0 && 0u8 & 0x10 == 0 && 0u8
            & 0x08 == 0 && 0u8 & 0x07 == 0) by (bit_vector);
        BGMapAttributes {
            bg_oam_priority: false,
            vertical_flip: false,
            horizontal_flip: false,
            unused: false,
            vram_bank: false,
            palette: 0,
        }
    }
}

impl BGMapAttributes {
    pub open spec fn of_bits(value: u8) -> BGMapAttributes {
        BGMapAttributes {
            bg_oam_priority: value & 0x80 != 0,
            vertical_flip: value & 0x40 != 0,
            horizontal_flip: value & 0x20 != 0,
            unused: value & 0x10 != 0,
            vram_bank: value & 0x08 != 0,
            palette: value & 0x07,
        }
    }

    pub open spec fn bits(self) -> u8 {
        ((((mask_if(self.bg_oam_priority, 0x80) | mask_if(self.vertical_flip, 0x40)) | mask_if(
            self.horizontal_flip,
            0x20,
        )) | mask_if(self.unused, 0x10)) | mask_if(self.vram_bank, 0x08)) | self.palette
    }

    pub fn set_from_u8(&mut self, value: u8)
        ensures
            *final(self) == BGMapAttributes::of_bits(value),
            final(self).palette <= 7,
    {
        proof {
            lemma_field_bounds(value);
        }
        self.bg_oam_priority = value & 0x80 != 0;
        self.vertical_flip = value & 0x40 != 0;
        self.horizontal_flip = value & 0x20 != 0;
        self.unused = value & 0x10 != 0;
        self.vram_bank = value & 0x08 != 0;
        self.palette = value & 0x07;
    }

    pub fn as_u8(&self) -> (r: u8)
        ensures
            r == self.bits(),
    {
        let p: u8 = if self.bg_oam_priority { 0x80 } else { 0 };
        let v: u8 = if self.vertical_flip { 0x40 } else { 0 };
        let h: u8 = if self.horizontal_flip { 0x20 } else { 0 };
        let u: u8 = if self.unused { 0x10 } else { 0 };
        let b: u8 = if self.vram_bank { 0x08 } else { 0 };
        ((((p | v) | h) | u) | b) | self.palette
    }
}

/// An attribute byte reads back as it was written.
pub proof fn lemma_attribute_bits(value: u8)
    ensures
        BGMapAttributes::of_bits(value).bits() == value,
{
    assert((((((mask_if(value & 0x80 != 0, 0x80) | mask_if(value & 0x40 != 0, 0x40)) | mask_if(
        value & 0x20 != 0,
        0x20,
    )) | mask_if(value & 0x10 != 0, 0x10)) | mask_if(value & 0x08 != 0, 0x08)) | (value & 0x07))
        == value) by (bit_vector);
}

/// The LCD control register, one flag per bit from bit 7 down.
#[derive(Copy, Clone, Debug)]
pub struct LcdControl {
    pub display_enable: bool,
    pub window_tile_map_select: bool,
    pub window_display_enable: bool,
    pub tile_address_mode: bool,
    pub bg_tile_map_select: bool,
    pub sprite_size: bool,
    pub sprite_display_enable: bool,
    pub bg_window_display_priority: bool,
}

impl Default for LcdControl {
    fn default() -> (r: LcdControl)
        ensures
            r == LcdControl::cleared(),
    {
        LcdControl {
            display_enable: false,
            window_tile_map_select: false,
            window_display_enable: false,
            tile_address_mode: false,
            bg_tile_map_select: false,
            sprite_size: false,
            sprite_display_enable: false,
            bg_window_display_priority: false,
        }
    }
}

impl LcdControl {
    pub open spec fn cleared() -> LcdControl {
        LcdControl {
            display_enable: false,
            window_tile_map_select: false,
            window_display_enable: false,
            tile_address_mode: false,
            bg_tile_map_select: false,
            sprite_size: false,
            sprite_display_enable: false,
            bg_window_display_priority: false,
        }
    }

    pub open spec fn of_bits(value: u8) -> LcdControl {
        LcdControl {
            display_enable: value & 0x80 == 0x80,
            window_tile_map_select: value & 0x40 == 0x40,
            window_display_enable: value & 0x20 == 0x20,
            tile_address_mode: value & 0x10 == 0x10,
            bg_tile_map_select: value & 0x08 == 0x08,
            sprite_size: value & 0x04 == 0x04,
            sprite_display_enable: value & 0x02 == 0x02,
            bg_window_display_priority: value & 0x01 == 0x01,
        }
    }

    pub open spec fn bits(self) -> u8 {
        ((((((mask_if(self.display_enable, 0x80) | mask_if(self.window_tile_map_select, 0x40))
            | mask_if(self.window_display_enable, 0x20)) | mask_if(self.tile_address_mode, 0x10))
            | mask_if(self.bg_tile_map_select, 0x08)) | mask_if(self.sprite_size, 0x04)) | mask_if(
            self.sprite_display_enable,
            0x02,
        )) | mask_if(self.bg_window_display_priority, 0x01)
    }

    pub fn as_u8(&self) -> (r: u8)
        ensures
            r == self.bits(),
    {
        let d: u8 = if self.display_enable { 0x80 } else { 0 };
        let wm: u8 = if self.window_tile_map_select { 0x40 } else { 0 };
        let we: u8 = if self.window_display_enable { 0x20 } else { 0 };
        let ta: u8 = if self.tile_address_mode { 0x10 } else { 0 };
        let bm: u8 = if self.bg_tile_map_select { 0x08 } else { 0 };
        let ss: u8 = if self.sprite_size { 0x04 } else { 0 };
        let se: u8 = if self.sprite_display_enable { 0x02 } else { 0 };
        let bp: u8 = if self.bg_window_display_priority { 0x01 } else { 0 };
        ((((((d | wm) | we) | ta) | bm) | ss) | se) | bp
    }

    pub fn set_from_u8(&mut self, value: u8)
        ensures
            *final(self) == LcdControl::of_bits(value),
    {
        self.display_enable = value & 0x80 == 0x80;
        self.window_tile_map_select = value & 0x40 == 0x40;
        self.window_display_enable = value & 0x20 == 0x20;
        self.tile_address_mode = value & 0x10 == 0x10;
        self.bg_tile_map_select = value & 0x08 == 0x08;
        self.sprite_size = value & 0x04 == 0x04;
        self.sprite_display_enable = value & 0x02 == 0x02;
        self.bg_window_display_priority = value & 0x01 == 0x01;
    }
}

/// The control register reads back as it was written.
pub proof fn lemma_control_bits(value: u8)
    ensures
        LcdControl::of_bits(value).bits() == value,
{
    assert((((((((mask_if(value & 0x80 == 0x80, 0x80) | mask_if(value & 0x40 == 0x40, 0x40))
        | mask_if(value & 0x20 == 0x20, 0x20)) | mask_if(value & 0x10 == 0x10, 0x10)) | mask_if(
        value & 0x08 == 0x08,
        0x08,
    )) | mask_if(value & 0x04 == 0x04, 0x04)) | mask_if(value & 0x02 == 0x02, 0x02)) | mask_if(
        value & 0x01 == 0x01,
        0x01,
    )) == value) by (bit_vector);
}

/// The LCD status register: four interrupt source enables, the LY = LYC
/// flag, and the mode (0 H-blank, 1 V-blank, 2 OAM scan, 3 drawing).
#[derive(Copy, Clone, Debug)]
pub struct LcdStatus {
    pub coincidence_interrupt_enable: bool,
    pub oam_interrupt_enable: bool,
    pub vblank_interrupt_enable: bool,
    pub hblank_interrupt_enable: bool,
    pub coincidence_flag: bool,
    pub mode: u8,
}

impl Default for LcdStatus {
    fn default() -> (r: LcdStatus)
        ensures
            r == LcdStatus::initial(),
    {
        LcdStatus {
            coincidence_interrupt_enable: false,
            oam_interrupt_enable: false,
            vblank_interrupt_enable: false,
            hblank_interrupt_enable: false,
            coincidence_flag: false,
            mode: 2,
        }
    }
}

impl LcdStatus {
    pub open spec fn initial() -> LcdStatus {
        LcdStatus {
            coincidence_interrupt_enable: false,
            oam_interrupt_enable: false,
            vblank_interrupt_enable: false,
            hblank_interrupt_enable: false,
            coincidence_flag: false,
            mode: 2,
        }
    }

    /// The byte the register reads as; bit 7 always reads as one.
    pub open spec fn bits(self) -> u8 {
        (((((0x80u8 | mask_if(self.coincidence_interrupt_enable, 0x40)) | mask_if(
            self.oam_interrupt_enable,
            0x20,
        )) | mask_if(self.vblank_interrupt_enable, 0x10)) | mask_if(
            self.hblank_interrupt_enable,
            0x08,
        )) | mask_if(self.coincidence_flag, 0x04)) | self.mode
    }

    /// A write sets the four source enables; the flag and the mode are
    /// read-only.
    pub open spec fn with_bits(self, value: u8) -> LcdStatus {
        LcdStatus {
            coincidence_interrupt_enable: value & 0x40 == 0x40,
            oam_interrupt_enable: value & 0x20 == 0x20,
            vblank_interrupt_enable: value & 0x10 == 0x10,
            hblank_interrupt_enable: value & 0x08 == 0x08,
            ..self
        }
    }

    pub fn as_u8(&self) -> (r: u8)
        ensures
            r == self.bits(),
    {
        let c: u8 = if self.coincidence_interrupt_enable { 0x40 } else { 0 };
        let o: u8 = if self.oam_interrupt_enable { 0x20 } else { 0 };
        let v: u8 = if self.vblank_interrupt_enable { 0x10 } else { 0 };
        let h: u8 = if self.hblank_interrupt_enable { 0x08 } else { 0 };
        let f: u8 = if self.coincidence_flag { 0x04 } else { 0 };
        (((((0x80u8 | c) | o) | v) | h) | f) | self.mode
    }

    pub fn set_from_u8(&mut self, value: u8)
        ensures
            *final(self) == old(self).with_bits(value),
    {
        self.coincidence_interrupt_enable = value & 0x40 == 0x40;
        self.oam_interrupt_enable = value & 0x20 == 0x20;
        self.vblank_interrupt_enable = value & 0x10 == 0x10;
        self.hblank_interrupt_enable = value & 0x08 == 0x08;
    }
}

} // verus!
