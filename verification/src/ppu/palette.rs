//! Colour palette memory of the colour machine and the colours it yields.

use vstd::prelude::*;
use crate::bits::lemma_field_bounds;

verus! {

/// A display colour.
#[derive(Copy, Clone, Debug, PartialEq, Eq, Structural)]
pub struct Rgb {
    pub r: u8,
    pub g: u8,
    pub b: u8,
}

/// The colour of a pixel that no layer draws.
pub open spec fn white() -> Rgb {
    Rgb { r: 0xff, g: 0xff, b: 0xff }
}

/// The red, green and blue components of a raw 15-bit colour, five bits
/// each, red lowest.
pub open spec fn red_of(rgb: u16) -> u16 {
    rgb & 0x001f
}

pub open spec fn green_of(rgb: u16) -> u16 {
    (rgb & 0x03e0) >> 5
}

pub open spec fn blue_of(rgb: u16) -> u16 {
    (rgb & 0x7c00) >> 10
}

/// The display colour of a raw colour with components `r`, `g`, `b`: red
/// (13r + 2g + b) / 2, green (3g + b) * 2, blue (3r + 2g + 11b) / 2. For
/// 5-bit components none of them exceeds 248, so no clamping to eight bits
/// is ever needed.
pub open spec fn corrected(r: u16, g: u16, b: u16) -> Rgb {
    Rgb {
        r: ((13 * r + 2 * g + b) / 2) as u8,
        g: ((3 * g + b) * 2) as u8,
        b: ((3 * r + 2 * g + 11 * b) / 2) as u8,
    }
}

/// Every component of a raw colour has five bits.
pub proof fn lemma_components(rgb: u16)
    ensures
        red_of(rgb) <= 31,
        green_of(rgb) <= 31,
        blue_of(rgb) <= 31,
{
    assert(rgb & 0x001f <= 31 && (rgb & 0x03e0) >> 5 <= 31 && (rgb & 0x7c00) >> 10 <= 31)
        by (bit_vector);
}

/// A palette memory of 64 bytes: eight palettes of four colours of two
/// bytes, reached through an index register that can step by itself.
#[derive(Copy, Clone, Debug)]
pub struct CgbPalette {
    pub auto_increment: bool,
    pub index: u8,
    pub palette: [u8; 0x40],
}

impl CgbPalette {
    pub open spec fn wf(self) -> bool {
        self.index < 0x40
    }

    pub open spec fn index_register(self) -> u8 {
        if self.auto_increment {
            self.index | 0x80
        } else {
            self.index
        }
    }

    pub open spec fn with_index(self, value: u8) -> CgbPalette {
        CgbPalette { auto_increment: value & 0x80 != 0, index: value & 0x3f, ..self }
    }

    /// The palette after a write to its data register. The byte is stored
    /// unless the picture unit is drawing (mode 3); the index steps either
    /// way if it is set to.
    pub open spec fn with_data(self, value: u8, mode: u8) -> CgbPalette {
        CgbPalette {
            palette: if mode != 3 {
                vstd::array::spec_array_update(self.palette, self.index as int, value)
            } else {
                self.palette
            },
            index: if self.auto_increment {
                ((self.index + 1) as u8) & 0x3f
            } else {
                self.index
            },
            ..self
        }
    }

    /// The raw 15-bit colour `shade` of palette `palette`, low byte first in
    /// memory.
    pub open spec fn raw_color(self, palette: u8, shade: u8) -> u16 {
        (self.palette[shade * 2 + palette * 8 + 1] as u16) << 8 | (self.palette[shade * 2 + palette
            * 8] as u16)
    }

    /// The display colour of `shade` of palette `palette`. Palette memory
    /// holds raw colours; the correction is applied when a colour is read.
    pub open spec fn color(self, palette: u8, shade: u8) -> Rgb {
        let rgb = self.raw_color(palette, shade);
        corrected(red_of(rgb), green_of(rgb), blue_of(rgb))
    }

    pub fn new() -> (r: CgbPalette)
        ensures
            r.wf(),
            !r.auto_increment,
            r.index == 0,
            forall|i: int| 0 <= i < 0x40 ==> r.palette[i] == 0,
    {
        CgbPalette { auto_increment: false, index: 0, palette: [0;0x40] }
    }

    pub fn read_index(&self) -> (r: u8)
        ensures
            r == self.index_register(),
    {
        if self.auto_increment {
            self.index | 0x80
        } else {
            self.index
        }
    }

    pub fn read_data(&self) -> (r: u8)
        requires
            self.wf(),
        ensures
            r == self.palette[self.index as int],
    {
        self.palette[self.index as usize]
    }

    pub fn write_index(&mut self, value: u8)
        ensures
            *final(self) == old(self).with_index(value),
            final(self).wf(),
    {
        proof {
            lemma_field_bounds(value);
        }
        self.auto_increment = value & 0x80 != 0;
        self.index = value & 0x3f;
    }

    pub fn write_data(&mut self, value: u8, mode: u8)
        requires
            old(self).wf(),
        ensures
            *final(self) == old(self).with_data(value, mode),
            final(self).wf(),
    {
        if mode != 3 {
            self.palette[self.index as usize] = value;
        }
        if self.auto_increment {
            proof {
                lemma_field_bounds((self.index + 1) as u8);
            }
            self.index = (self.index + 1) & 0x3f;
        }
    }

    pub fn get_color(&self, palette: u8, shade: u8) -> (r: Rgb)
        requires
            palette <= 7,
            shade <= 3,
        ensures
            r == self.color(palette, shade),
    {
        let address = ((shade * 2) + (palette * 8)) as usize;
        let rgb = (self.palette[address + 1] as u16) << 8 | self.palette[address] as u16;
        proof {
            lemma_components(rgb);
        }
        let red = rgb & 0x001f;
        let green = (rgb & 0x03e0) >> 5;
        let blue = (rgb & 0x7c00) >> 10;
        let red_corrected = (red * 13 + green * 2 + blue) / 2;
        let green_corrected = (green * 3 + blue) * 2;
        let blue_corrected = (red * 3 + green * 2 + blue * 11) / 2;
        Rgb { r: red_corrected as u8, g: green_corrected as u8, b: blue_corrected as u8 }
    }
}

} // verus!
