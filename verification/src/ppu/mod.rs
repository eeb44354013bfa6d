//! The picture unit: the scanline state machine and the compositing of
//! background, window and sprites into a frame of 160 by 144 pixels.

use vstd::prelude::*;
use crate::bits::lemma_field_bounds;
use crate::interrupts::InterruptController;

pub mod registers;
pub mod palette;
pub mod sprites;
pub mod frame;

pub use registers::{BGMapAttributes, LcdControl, LcdStatus};
pub use palette::{CgbPalette, Rgb, white};
pub use sprites::{Sprite, sort_by_x, sorted_by_x, lemma_sorted};

verus! {

pub const SCREEN_WIDTH: usize = 160;

pub const SCREEN_HEIGHT: usize = 144;

/// The frame that is shown while the display is off: every byte 0xff. A
/// frame has three bytes per pixel, red first, rows from the top.
pub open spec fn white_frame() -> [u8; 69120] {
    vstd::array::spec_array_fill_for_copy_type::<u8, 69120>(0xff)
}

/// The index of a tile in the tile maps: 32 tiles to a row, the second map
/// 0x400 entries behind the first.
pub open spec fn map_index(x: u8, y: u8, select_high: bool) -> int {
    x + 32 * y + (if select_high {
        0x400int
    } else {
        0
    })
}

pub fn bg_xy_idx(x: u8, y: u8, select_high: bool) -> (r: usize)
    requires
        x < 32,
        y < 32,
    ensures
        r == map_index(x, y, select_high),
        r < 0x800,
{
    let idx = x as usize + (32 * y as usize);
    if select_high {
        idx + 0x400
    } else {
        idx
    }
}

/// The shade, 0 to 3, of the pixel in column `x` of the tile row stored at
/// `at`: the bit of the second byte counts two, that of the first one.
pub open spec fn row_shade(bank: [u8; 0x1800], at: int, x: u8) -> u8 {
    ((if bank[at + 1] & (0x80u8 >> x) != 0 {
        2int
    } else {
        0
    }) + (if bank[at] & (0x80u8 >> x) != 0 {
        1int
    } else {
        0
    })) as u8
}

fn shade_in_row(bank: &[u8; 0x1800], at: usize, x: u8) -> (r: u8)
    requires
        at + 1 < 0x1800,
        x < 8,
    ensures
        r == row_shade(*bank, at as int, x),
        r <= 3,
{
    let byte1 = bank[at];
    let byte2 = bank[at + 1];
    let mask = 0x80u8 >> x;
    let high: u8 = if byte2 & mask != 0 { 2 } else { 0 };
    let low: u8 = if byte1 & mask != 0 { 1 } else { 0 };
    high + low
}

/// Which layer supplies a pixel.
#[derive(Copy, Clone, Debug, PartialEq, Eq, Structural)]
pub enum Layer {
    Background,
    Object,
    Blank,
}

pub struct PPU {
    pub frame_buffer: [u8; 69120],
    pub tile_data_bank0: [u8; 0x1800],
    pub tile_data_bank1: [u8; 0x1800],
    pub background_tile_map_bank0: [u8; 0x800],
    pub background_tile_map_bank1: [BGMapAttributes; 0x800],
    pub sprite_attribute_table: [u8; 0xa0],
    pub cgb_background_palette: CgbPalette,
    pub cgb_sprite_palette: CgbPalette,
    pub lcdc: LcdControl,
    pub lcd_status: LcdStatus,
    pub sprites_to_draw: [(u8, Sprite); 160],
    pub bg_palette: u8,
    pub obj_palette_0: u8,
    pub obj_palette_1: u8,
    pub scroll_x: u8,
    pub scroll_y: u8,
    pub window_x: u8,
    pub window_y: u8,
    pub tick: u16,
    pub scanline: u8,
    pub ly_compare: u8,
    pub vram_bank_sel: u8,
    pub dmg_compatibility: bool,
    pub dmg_mode: bool,
    pub object_priority_mode: bool,
    pub screen_cleared: bool,
}

impl PPU {
    /// The unit is at a point of its timeline (see `after_cycle`), its bank
    /// and palette selectors are in range, and every shade and palette
    /// number it holds is one.
    pub open spec fn wf(&self) -> bool {
        &&& match self.lcd_status.mode {
            0 => self.tick < 204 && self.scanline < 144,
            1 => self.tick < 456 && 144 <= self.scanline <= 153,
            2 => self.tick < 80 && self.scanline < 144,
            3 => self.tick < 172 && self.scanline < 144,
            _ => false,
        }
        &&& self.vram_bank_sel <= 1
        &&& self.cgb_background_palette.wf()
        &&& self.cgb_sprite_palette.wf()
        &&& forall|i: int|
            0 <= i < 0x800 ==> (#[trigger] self.background_tile_map_bank1[i]).palette <= 7
        &&& forall|x: int|
            0 <= x < 160 ==> (#[trigger] self.sprites_to_draw[x]).0 <= 3
                && self.sprites_to_draw[x].1.cgb_palette <= 7
    }

    /// The level of the LCD status interrupt line: the or of the enabled
    /// sources.
    pub open spec fn stat_line(&self) -> bool {
        (self.lcd_status.coincidence_interrupt_enable && self.ly_compare == self.scanline) || (
        self.lcd_status.oam_interrupt_enable && self.lcd_status.mode == 2) || (
        self.lcd_status.vblank_interrupt_enable && self.lcd_status.mode == 1) || (
        self.lcd_status.hblank_interrupt_enable && self.lcd_status.mode == 0)
    }

    // ----- sprites of a scanline -----
    /// Whether a sprite whose table entry has row `sprite_y` covers the
    /// current scanline; sprites are 8 or 16 rows tall.
    pub open spec fn covers_line(&self, sprite_y: u8) -> bool {
        if self.lcdc.sprite_size {
            sprite_y <= self.scanline + 16 && sprite_y > self.scanline
        } else {
            sprite_y <= self.scanline + 16 && sprite_y > self.scanline + 8
        }
    }

    /// Entry `n` of the sprite table.
    pub open spec fn sprite_entry(&self, n: int) -> Sprite {
        Sprite::of_bytes(
            self.sprite_attribute_table[4 * n],
            self.sprite_attribute_table[4 * n + 1],
            self.sprite_attribute_table[4 * n + 2],
            self.sprite_attribute_table[4 * n + 3],
        )
    }

    /// The sprites selected among the first `upto` table entries: those
    /// that cover the scanline, in table order, ten at most.
    pub open spec fn scanned(&self, upto: int) -> Seq<Sprite>
        decreases upto,
    {
        if upto <= 0 {
            Seq::empty()
        } else {
            let before = self.scanned(upto - 1);
            if before.len() < 10 && self.covers_line(self.sprite_entry(upto - 1).y) {
                before.push(self.sprite_entry(upto - 1))
            } else {
                before
            }
        }
    }

    /// The sprites of the scanline in drawing order: table order, or, with
    /// object priority by column, column order.
    pub open spec fn line_sprites(&self) -> Seq<Sprite> {
        if !self.lcdc.sprite_display_enable {
            Seq::empty()
        } else if self.object_priority_mode {
            sorted_by_x(self.scanned(40))
        } else {
            self.scanned(40)
        }
    }

    /// The shade of a sprite's tile at a pixel of the tile.
    pub open spec fn sprite_tile_shade(&self, tile_number: u8, x: u8, y: u8, vram_bank: bool) -> u8 {
        row_shade(
            if vram_bank {
                self.tile_data_bank1
            } else {
                self.tile_data_bank0
            },
            tile_number * 16 + y * 2,
            x,
        )
    }

    /// The shade that sprite `s` shows in screen column `x` of the current
    /// scanline, flips applied.
    pub open spec fn sprite_shade_at(&self, s: Sprite, x: u8) -> u8 {
        let col = x + 8 - s.x;
        let row = self.scanline + 16 - s.y;
        self.sprite_tile_shade(
            if self.lcdc.sprite_size {
                s.tile_number & 0xfe
            } else {
                s.tile_number
            },
            (if s.flip_x {
                7 - col
            } else {
                col
            }) as u8,
            (if !s.flip_y {
                row
            } else if self.lcdc.sprite_size {
                15 - row
            } else {
                7 - row
            }) as u8,
            s.vram_bank,
        )
    }

    /// The sprite pixel of screen column `x`: the first sprite of `order`
    /// from position `from` on that lies over the column with a shade other
    /// than zero, with that shade; shade zero and the blank sprite if there
    /// is none.
    pub open spec fn picked(&self, order: Seq<Sprite>, x: u8, from: int) -> (u8, Sprite)
        decreases order.len() - from,
    {
        if from < 0 || from >= order.len() {
            (0u8, Sprite::blank())
        } else if order[from].x <= x + 8 && order[from].x > x && self.sprite_shade_at(
            order[from],
            x,
        ) != 0 {
            (self.sprite_shade_at(order[from], x), order[from])
        } else {
            self.picked(order, x, from + 1)
        }
    }

    /// Whether `picks` holds the sprite pixel of every column of the
    /// scanline.
    pub open spec fn is_line_picks(&self, picks: [(u8, Sprite); 160]) -> bool {
        forall|x: int|
            0 <= x < 160 ==> #[trigger] picks[x] == self.picked(self.line_sprites(), x as u8, 0)
    }

    /// The sprite pixels of the whole scanline.
    #[verifier::opaque]
    pub open spec fn line_picks(&self) -> [(u8, Sprite); 160] {
        choose|picks: [(u8, Sprite); 160]| self.is_line_picks(picks)
    }

    // ----- background and window -----
    /// Whether the pixel lies in the window: the window is on, and the
    /// pixel is at or right of column WX - 7 and at or below row WY.
    pub open spec fn in_window(&self, x: u8, y: u8) -> bool {
        self.lcdc.window_display_enable && x + 7 >= self.window_x && y >= self.window_y
    }

    /// Column of the pixel in the 256-pixel-wide map it is taken from.
    pub open spec fn map_column(&self, x: u8, y: u8) -> u8 {
        if self.in_window(x, y) {
            (x + 7 - self.window_x) as u8
        } else {
            ((x + self.scroll_x) % 256) as u8
        }
    }

    /// Row of the pixel in the map it is taken from.
    pub open spec fn map_row(&self, x: u8, y: u8) -> u8 {
        if self.in_window(x, y) {
            (y - self.window_y) as u8
        } else {
            ((y + self.scroll_y) % 256) as u8
        }
    }

    /// Index of the map entry of the pixel.
    pub open spec fn map_entry(&self, x: u8, y: u8) -> int {
        map_index(
            self.map_column(x, y) / 8,
            self.map_row(x, y) / 8,
            if self.in_window(x, y) {
                self.lcdc.window_tile_map_select
            } else {
                self.lcdc.bg_tile_map_select
            },
        )
    }

    /// Where the data of a background tile starts: tiles are numbered from
    /// 0x8000 unsigned, or from 0x9000 signed.
    pub open spec fn bg_tile_start(&self, tile_number: u8) -> int {
        if self.lcdc.tile_address_mode {
            tile_number * 16
        } else if tile_number >= 128 {
            (tile_number - 128) * 16 + 0x800
        } else {
            tile_number * 16 + 0x1000
        }
    }

    pub open spec fn bg_tile_shade(&self, tile_number: u8, x: u8, y: u8, vram_bank: bool) -> u8 {
        row_shade(
            if vram_bank {
                self.tile_data_bank1
            } else {
                self.tile_data_bank0
            },
            self.bg_tile_start(tile_number) + y * 2,
            x,
        )
    }

    /// The shade of the background or window at the pixel, the flips of the
    /// map entry applied.
    pub open spec fn bg_shade(&self, x: u8, y: u8) -> u8 {
        let entry = self.map_entry(x, y);
        let attributes = self.background_tile_map_bank1[entry];
        let px = self.map_column(x, y) % 8;
        let py = self.map_row(x, y) % 8;
        self.bg_tile_shade(
            self.background_tile_map_bank0[entry],
            if attributes.horizontal_flip {
                (7 - px) as u8
            } else {
                px
            },
            if attributes.vertical_flip {
                (7 - py) as u8
            } else {
                py
            },
            attributes.vram_bank,
        )
    }

    /// Whether the background is shown at all: always on the colour
    /// machine; in compatibility mode only while the control register says
    /// so.
    pub open spec fn background_shown(&self) -> bool {
        !self.dmg_compatibility || self.lcdc.bg_window_display_priority
    }

    /// The layer that supplies the pixel, decided in this order: a map
    /// entry with priority over sprites wins where its shade is not zero;
    /// on the colour machine with background priority off the sprite wins;
    /// where no sprite pixel is, the background shows; a sprite in front, or
    /// over background shade zero, wins; else the background shows. A
    /// background that is switched off leaves the pixel blank.
    pub open spec fn layer(&self, x: u8, y: u8) -> Layer {
        let bg_shade = self.bg_shade(x, y);
        let (sprite_shade, sprite) = self.sprites_to_draw[x as int];
        if self.background_tile_map_bank1[self.map_entry(x, y)].bg_oam_priority && bg_shade != 0 {
            Layer::Background
        } else if !self.dmg_compatibility && !self.lcdc.bg_window_display_priority {
            Layer::Object
        } else if sprite_shade == 0 && self.background_shown() {
            Layer::Background
        } else if !sprite.bg_priority || bg_shade == 0 {
            Layer::Object
        } else if self.background_shown() {
            Layer::Background
        } else {
            Layer::Blank
        }
    }

    /// The colour of a sprite pixel in compatibility mode: the shade goes
    /// through object palette register 0 or 1 and selects a colour of
    /// sprite palette 0 or 1.
    pub open spec fn sprite_draw_color(&self, shade: u8, sprite: Sprite) -> Rgb {
        if sprite.dmg_palette {
            self.cgb_sprite_palette.color(1, (self.obj_palette_1 >> ((shade * 2) as u8)) & 0x03)
        } else {
            self.cgb_sprite_palette.color(0, (self.obj_palette_0 >> ((shade * 2) as u8)) & 0x03)
        }
    }

    /// The colour of a background pixel in compatibility mode.
    pub open spec fn bg_draw_color(&self, shade: u8) -> Rgb {
        self.cgb_background_palette.color(0, (self.bg_palette >> ((shade * 2) as u8)) & 0x03)
    }

    /// The colour of the pixel.
    pub open spec fn pixel_color(&self, x: u8, y: u8) -> Rgb {
        let (sprite_shade, sprite) = self.sprites_to_draw[x as int];
        match self.layer(x, y) {
            Layer::Object => if self.dmg_compatibility {
                self.sprite_draw_color(sprite_shade, sprite)
            } else {
                self.cgb_sprite_palette.color(sprite.cgb_palette, sprite_shade)
            },
            Layer::Background => if self.dmg_compatibility {
                self.bg_draw_color(self.bg_shade(x, y))
            } else {
                self.cgb_background_palette.color(
                    self.background_tile_map_bank1[self.map_entry(x, y)].palette,
                    self.bg_shade(x, y),
                )
            },
            Layer::Blank => white(),
        }
    }

    /// The frame with the pixel's colour stored.
    #[verifier::opaque]
    pub open spec fn frame_with_pixel(&self, x: u8, y: u8) -> [u8; 69120] {
        let at = (y * 160 + x) * 3;
        let c = self.pixel_color(x, y);
        vstd::array::spec_array_update(
            vstd::array::spec_array_update(
                vstd::array::spec_array_update(self.frame_buffer, at, c.r),
                at + 1,
                c.g,
            ),
            at + 2,
            c.b,
        )
    }

    fn sprite_in_scanline(&self, sprite_y: u8) -> (r: bool)
        requires
            self.scanline <= 153,
        ensures
            r == self.covers_line(sprite_y),
    {
        if self.lcdc.sprite_size {
            sprite_y <= self.scanline + 16 && sprite_y > self.scanline
        } else {
            sprite_y <= self.scanline + 16 && sprite_y > self.scanline + 8
        }
    }

    fn get_sprite_tile_shade(&self, tile_number: u8, x: u8, y: u8, vram_bank: bool) -> (r: u8)
        requires
            x < 8,
            y < 16,
        ensures
            r == self.sprite_tile_shade(tile_number, x, y, vram_bank),
            r <= 3,
    {
        let tile_start_address = tile_number as usize * 16;
        let tile_address = tile_start_address + (y as usize * 2);
        if vram_bank {
            shade_in_row(&self.tile_data_bank1, tile_address, x)
        } else {
            shade_in_row(&self.tile_data_bank0, tile_address, x)
        }
    }

    fn get_bg_tile_shade(&self, tile_number: u8, x: u8, y: u8, vram_bank: bool) -> (r: u8)
        requires
            x < 8,
            y < 8,
        ensures
            r == self.bg_tile_shade(tile_number, x, y, vram_bank),
            r <= 3,
    {
        let tile_start_address = if self.lcdc.tile_address_mode {
            tile_number as usize * 16
        } else {
            if tile_number >= 128 {
                (tile_number as usize - 128) * 16 + 0x800
            } else {
                tile_number as usize * 16 + 0x1000
            }
        };
        let tile_address = tile_start_address + (y as usize * 2);
        if vram_bank {
            shade_in_row(&self.tile_data_bank1, tile_address, x)
        } else {
            shade_in_row(&self.tile_data_bank0, tile_address, x)
        }
    }

    fn get_sprite_draw_color(&self, palette_index: u8, sprite: &Sprite) -> (r: Rgb)
        requires
            palette_index <= 3,
        ensures
            r == self.sprite_draw_color(palette_index, *sprite),
    {
        if sprite.dmg_palette {
            let palette = self.obj_palette_1;
            proof {
                lemma_field_bounds(palette >> ((palette_index * 2) as u8));
            }
            let color_number = (palette >> (palette_index * 2)) & 0x03;
            self.cgb_sprite_palette.get_color(1, color_number)
        } else {
            let palette = self.obj_palette_0;
            proof {
                lemma_field_bounds(palette >> ((palette_index * 2) as u8));
            }
            let color_number = (palette >> (palette_index * 2)) & 0x03;
            self.cgb_sprite_palette.get_color(0, color_number)
        }
    }

    fn get_bg_draw_color(&self, palette_index: u8) -> (r: Rgb)
        requires
            palette_index <= 3,
        ensures
            r == self.bg_draw_color(palette_index),
    {
        proof {
            lemma_field_bounds(self.bg_palette >> ((palette_index * 2) as u8));
        }
        let color_number = (self.bg_palette >> (palette_index * 2)) & 0x03;
        self.cgb_background_palette.get_color(0, color_number)
    }

    /// Whether the LCD status interrupt line is high.
    pub fn interrupt_state(&self) -> (r: bool)
        ensures
            r == self.stat_line(),
    {
        (self.lcd_status.coincidence_interrupt_enable && self.ly_compare == self.scanline) || (
        self.lcd_status.oam_interrupt_enable && self.lcd_status.mode == 2) || (
        self.lcd_status.vblank_interrupt_enable && self.lcd_status.mode == 1) || (
        self.lcd_status.hblank_interrupt_enable && self.lcd_status.mode == 0)
    }

    /// The background or window shade at a pixel, and the attributes of
    /// its map entry.
    fn background_pixel(&self, x: u8, y: u8) -> (r: (u8, BGMapAttributes))
        requires
            self.wf(),
            x < 160,
            y < 144,
        ensures
            r.0 == self.bg_shade(x, y),
            r.1 == self.background_tile_map_bank1[self.map_entry(x, y)],
            r.0 <= 3,
            r.1.palette <= 7,
    {
        let in_window = self.lcdc.window_display_enable && x + 7 >= self.window_x && y
            >= self.window_y;
        let column: u8 = if in_window {
            x + 7 - self.window_x
        } else {
            x.wrapping_add(self.scroll_x)
        };
        let row: u8 = if in_window {
            y - self.window_y
        } else {
            y.wrapping_add(self.scroll_y)
        };
        let bg_tile_map_select = if in_window {
            self.lcdc.window_tile_map_select
        } else {
            self.lcdc.bg_tile_map_select
        };
        assert(column == self.map_column(x, y));
        assert(row == self.map_row(x, y));
        let mut pixel_x = column % 8;
        let mut pixel_y = row % 8;
        let bg_tile_idx = bg_xy_idx(column / 8, row / 8, bg_tile_map_select);
        assert(bg_tile_idx == self.map_entry(x, y));
        let bg_tile_number = self.background_tile_map_bank0[bg_tile_idx];
        let bg_attributes = self.background_tile_map_bank1[bg_tile_idx];
        if bg_attributes.horizontal_flip {
            pixel_x = 7 - pixel_x;
        }
        if bg_attributes.vertical_flip {
            pixel_y = 7 - pixel_y;
        }
        let shade = self.get_bg_tile_shade(
            bg_tile_number,
            pixel_x,
            pixel_y,
            bg_attributes.vram_bank,
        );
        (shade, bg_attributes)
    }

    /// The colour of a pixel.
    fn color_at(&self, x: u8, y: u8) -> (r: Rgb)
        requires
            self.wf(),
            x < 160,
            y < 144,
        ensures
            r == self.pixel_color(x, y),
    {
        let (bg_window_shade, bg_attributes) = self.background_pixel(x, y);
        let (sprite_shade, sprite) = self.sprites_to_draw[x as usize];
        let display_background = !self.dmg_compatibility || self.lcdc.bg_window_display_priority;

        let layer = if bg_attributes.bg_oam_priority && bg_window_shade != 0 {
            Layer::Background
        } else if !self.dmg_compatibility && !self.lcdc.bg_window_display_priority {
            Layer::Object
        } else if sprite_shade == 0 && display_background {
            Layer::Background
        } else if !sprite.bg_priority || bg_window_shade == 0 {
            Layer::Object
        } else if display_background {
            Layer::Background
        } else {
            Layer::Blank
        };
        assert(layer == self.layer(x, y));

        match layer {
            Layer::Object => {
                if self.dmg_compatibility {
                    self.get_sprite_draw_color(sprite_shade, &sprite)
                } else {
                    self.cgb_sprite_palette.get_color(sprite.cgb_palette, sprite_shade)
                }
            },
            Layer::Background => {
                if self.dmg_compatibility {
                    self.get_bg_draw_color(bg_window_shade)
                } else {
                    self.cgb_background_palette.get_color(bg_attributes.palette, bg_window_shade)
                }
            },
            Layer::Blank => Rgb { r: 0xff, g: 0xff, b: 0xff },
        }
    }

    /// Composes one pixel of the frame.
    fn draw_pixel(&mut self, x: u8, y: u8)
        requires
            old(self).wf(),
            x < 160,
            y < 144,
        ensures
            *final(self) == (PPU { frame_buffer: old(self).frame_with_pixel(x, y), ..*old(self) }),
    {
        reveal(PPU::frame_with_pixel);
        let pixel_color = self.color_at(x, y);
        let idx = (y as usize * SCREEN_WIDTH + x as usize) * 3;
        self.frame_buffer[idx] = pixel_color.r;
        self.frame_buffer[idx + 1] = pixel_color.g;
        self.frame_buffer[idx + 2] = pixel_color.b;
    }

    // ----- the sprites of a scanline, computed -----
    /// Scans the sprite table for the sprites of the current scanline.
    fn scan_sprites(&self) -> (r: Vec<Sprite>)
        requires
            self.scanline < 144,
        ensures
            r@ == self.scanned(40),
            forall|i: int|
                0 <= i < r@.len() ==> self.covers_line((#[trigger] r@[i]).y) && r@[i].cgb_palette
                    <= 7,
    {
        let mut sprites: Vec<Sprite> = Vec::with_capacity(10);
        let mut n: usize = 0;
        while n < 40
            invariant
                n <= 40,
                self.scanline < 144,
                sprites@ == self.scanned(n as int),
                sprites@.len() <= 10,
                forall|i: int|
                    0 <= i < sprites@.len() ==> self.covers_line((#[trigger] sprites@[i]).y)
                        && sprites@[i].cgb_palette <= 7,
            decreases 40 - n,
        {
            let sprite_addr = n * 4;
            let y = self.sprite_attribute_table[sprite_addr];
            if sprites.len() < 10 && self.sprite_in_scanline(y) {
                let sprite_flags = self.sprite_attribute_table[sprite_addr + 3];
                proof {
                    lemma_field_bounds(sprite_flags);
                }
                sprites.push(
                    Sprite {
                        y,
                        x: self.sprite_attribute_table[sprite_addr + 1],
                        tile_number: self.sprite_attribute_table[sprite_addr + 2],
                        bg_priority: sprite_flags & 0x80 != 0,
                        flip_y: sprite_flags & 0x40 != 0,
                        flip_x: sprite_flags & 0x20 != 0,
                        dmg_palette: sprite_flags & 0x10 != 0,
                        vram_bank: sprite_flags & 0x08 != 0,
                        cgb_palette: sprite_flags & 0x07,
                    },
                );
            }
            n += 1;
        }
        sprites
    }

    /// The shade that a sprite of the scanline shows in column `x`, which
    /// it lies over.
    fn sprite_shade(&self, sprite: &Sprite, x: u8) -> (r: u8)
        requires
            self.scanline < 144,
            self.covers_line(sprite.y),
            x < 160,
            sprite.x <= x + 8,
            sprite.x > x,
        ensures
            r == self.sprite_shade_at(*sprite, x),
            r <= 3,
    {
        let mut sprite_x = x + 8 - sprite.x;
        if sprite.flip_x {
            sprite_x = 7 - sprite_x;
        }
        let mut sprite_y = self.scanline + 16 - sprite.y;
        if sprite.flip_y {
            sprite_y = if self.lcdc.sprite_size {
                15 - sprite_y
            } else {
                7 - sprite_y
            };
        }
        let sprite_tile_number = if self.lcdc.sprite_size {
            sprite.tile_number & 0xfe
        } else {
            sprite.tile_number
        };
        self.get_sprite_tile_shade(sprite_tile_number, sprite_x, sprite_y, sprite.vram_bank)
    }

    /// The sprite pixel of column `x` among the sprites `order`.
    fn pick_sprite(&self, order: &Vec<Sprite>, x: u8) -> (r: (u8, Sprite))
        requires
            self.scanline < 144,
            x < 160,
            forall|i: int|
                0 <= i < order@.len() ==> self.covers_line((#[trigger] order@[i]).y)
                    && order@[i].cgb_palette <= 7,
        ensures
            r == self.picked(order@, x, 0),
            r.0 <= 3,
            r.1.cgb_palette <= 7,
    {
        let mut i: usize = 0;
        while i < order.len()
            invariant
                i <= order@.len(),
                self.scanline < 144,
                x < 160,
                forall|k: int|
                    0 <= k < order@.len() ==> self.covers_line((#[trigger] order@[k]).y)
                        && order@[k].cgb_palette <= 7,
                self.picked(order@, x, 0) == self.picked(order@, x, i as int),
            decreases order@.len() - i,
        {
            let sprite = order[i];
            if sprite.x <= x + 8 && sprite.x > x {
                let sprite_shade = self.sprite_shade(&sprite, x);
                if sprite_shade != 0 {
                    return (sprite_shade, sprite);
                }
            }
            i += 1;
        }
        (0, Sprite::default())
    }

    /// The sprite pixels of the current scanline.
    fn select_sprites(&self) -> (r: [(u8, Sprite); 160])
        requires
            self.scanline < 144,
        ensures
            r == self.line_picks(),
            forall|x: int| 0 <= x < 160 ==> (#[trigger] r[x]).0 <= 3 && r[x].1.cgb_palette <= 7,
    {
        let nothing = (0u8, Sprite::default());
        let mut picks = [nothing;160];
        let order: Vec<Sprite> = if !self.lcdc.sprite_display_enable {
            Vec::new()
        } else {
            let scanned = self.scan_sprites();
            if self.object_priority_mode {
                proof {
                    lemma_sorted(scanned@);
                }
                sort_by_x(scanned)
            } else {
                scanned
            }
        };
        assert(order@ == self.line_sprites());
        let mut x: u8 = 0;
        while x < 160
            invariant
                x <= 160,
                self.scanline < 144,
                order@ == self.line_sprites(),
                forall|i: int|
                    0 <= i < order@.len() ==> self.covers_line((#[trigger] order@[i]).y)
                        && order@[i].cgb_palette <= 7,
                forall|k: int|
                    0 <= k < x ==> #[trigger] picks[k] == self.picked(order@, k as u8, 0),
                forall|k: int|
                    0 <= k < 160 ==> (#[trigger] picks[k]).0 <= 3 && picks[k].1.cgb_palette <= 7,
            decreases 160 - x,
        {
            let pick = self.pick_sprite(&order, x);
            picks[x as usize] = pick;
            x += 1;
        }
        proof {
            reveal(PPU::line_picks);
            assert(self.is_line_picks(picks));
            assert(self.is_line_picks(self.line_picks()));
            assert(picks =~= self.line_picks());
        }
        picks
    }

    /// Selects the sprites of the current scanline and works out the sprite
    /// pixel of each of its columns.
    fn populate_sprites(&mut self)
        requires
            old(self).wf(),
            old(self).scanline < 144,
        ensures
            *final(self) == (PPU { sprites_to_draw: old(self).line_picks(), ..*old(self) }),
            final(self).wf(),
    {
        let picks = self.select_sprites();
        self.sprites_to_draw = picks;
    }

    // ----- the timeline -----
    /// The unit after the display is switched off: the frame is white, and
    /// the timeline is back at the start of scanline 0, where it resumes
    /// when the display is switched on again.
    pub open spec fn blanked(&self) -> PPU {
        PPU {
            frame_buffer: white_frame(),
            screen_cleared: true,
            tick: 0,
            scanline: 0,
            lcd_status: LcdStatus { mode: 2, ..self.lcd_status },
            ..*self
        }
    }

    /// Whether this tick is the last of the current mode's period: 80 ticks
    /// of OAM scan, 172 of drawing, 204 of H-blank, 456 for each line of
    /// V-blank.
    pub open spec fn period_ends(&self) -> bool {
        match self.lcd_status.mode {
            0 => self.tick + 1 == 204,
            1 => self.tick + 1 == 456,
            2 => self.tick + 1 == 80,
            _ => self.tick + 1 == 172,
        }
    }

    /// The mode after this tick: scan, draw and H-blank follow each other
    /// on lines 0 to 143; V-blank lasts from line 144 to line 153.
    pub open spec fn next_mode(&self) -> u8 {
        if !self.period_ends() {
            self.lcd_status.mode
        } else {
            match self.lcd_status.mode {
                0 => if self.scanline + 1 == 144 {
                    1
                } else {
                    2
                },
                1 => if self.scanline + 1 == 154 {
                    2
                } else {
                    1
                },
                2 => 3,
                _ => 0,
            }
        }
    }

    /// The scanline after this tick.
    pub open spec fn next_scanline(&self) -> u8 {
        if !self.period_ends() {
            self.scanline
        } else {
            match self.lcd_status.mode {
                0 => (self.scanline + 1) as u8,
                1 => if self.scanline + 1 == 154 {
                    0
                } else {
                    (self.scanline + 1) as u8
                },
                _ => self.scanline,
            }
        }
    }

    /// Whether this tick ends the last visible line, which completes the
    /// frame and starts V-blank.
    pub open spec fn frame_complete(&self) -> bool {
        self.lcd_status.mode == 0 && self.period_ends() && self.scanline + 1 == 144
    }

    /// Whether this tick changes the mode or the scanline.
    pub open spec fn moves_on(&self) -> bool {
        self.next_mode() != self.lcd_status.mode || self.next_scanline() != self.scanline
    }

    /// The unit after one tick with the display on. While drawing, the
    /// first 160 ticks of a line compose one pixel each; the first tick of
    /// the OAM scan selects the line's sprites.
    pub open spec fn advanced(&self) -> PPU {
        PPU {
            screen_cleared: false,
            frame_buffer: if self.lcd_status.mode == 3 && self.tick < 160 {
                self.frame_with_pixel(self.tick as u8, self.scanline)
            } else {
                self.frame_buffer
            },
            sprites_to_draw: if self.lcd_status.mode == 2 && self.tick == 0 {
                self.line_picks()
            } else {
                self.sprites_to_draw
            },
            tick: if self.period_ends() {
                0
            } else {
                (self.tick + 1) as u16
            },
            scanline: self.next_scanline(),
            lcd_status: if self.moves_on() {
                LcdStatus {
                    mode: self.next_mode(),
                    coincidence_flag: self.next_scanline() == self.ly_compare,
                    ..self.lcd_status
                }
            } else {
                self.lcd_status
            },
            ..*self
        }
    }

    /// The unit after one tick of the 4 MHz clock. With the display off it
    /// blanks the frame once and then rests.
    pub open spec fn after_cycle(&self) -> PPU {
        if self.lcdc.display_enable {
            self.advanced()
        } else if !self.screen_cleared {
            self.blanked()
        } else {
            *self
        }
    }

    /// Whether this tick hands a frame to the display: the white frame when
    /// the display has just been switched off, or a completed frame.
    pub open spec fn delivers_frame(&self) -> bool {
        if self.lcdc.display_enable {
            self.frame_complete()
        } else {
            !self.screen_cleared
        }
    }

    /// The interrupt controller after this tick: V-blank is requested when
    /// the frame completes, LCD status when the status line rises.
    pub open spec fn interrupts_after(&self, ic: InterruptController) -> InterruptController {
        if !self.lcdc.display_enable {
            ic
        } else {
            let first = if self.frame_complete() {
                ic.with_request(0x01)
            } else {
                ic
            };
            if self.moves_on() && !self.stat_line() && self.advanced().stat_line() {
                first.with_request(0x02)
            } else {
                first
            }
        }
    }

    // ----- memory and registers -----
    /// Video memory cannot be reached while the unit draws.
    pub open spec fn vram_locked(&self) -> bool {
        self.lcd_status.mode == 3 && self.lcdc.display_enable
    }

    /// What a read of video memory returns: tile data below 0x9800, the
    /// tile maps above, each from the selected bank.
    pub open spec fn vram_value(&self, address: usize) -> u8 {
        if self.vram_locked() {
            0xff
        } else if address < 0x9800 {
            if self.vram_bank_sel == 0 {
                self.tile_data_bank0[address - 0x8000]
            } else {
                self.tile_data_bank1[address - 0x8000]
            }
        } else {
            if self.vram_bank_sel == 0 {
                self.background_tile_map_bank0[address - 0x9800]
            } else {
                self.background_tile_map_bank1[address - 0x9800].bits()
            }
        }
    }

    pub open spec fn with_vram(&self, address: usize, value: u8) -> PPU {
        if self.vram_locked() {
            *self
        } else if address < 0x9800 {
            if self.vram_bank_sel == 0 {
                PPU {
                    tile_data_bank0: vstd::array::spec_array_update(
                        self.tile_data_bank0,
                        address - 0x8000,
                        value,
                    ),
                    ..*self
                }
            } else {
                PPU {
                    tile_data_bank1: vstd::array::spec_array_update(
                        self.tile_data_bank1,
                        address - 0x8000,
                        value,
                    ),
                    ..*self
                }
            }
        } else {
            if self.vram_bank_sel == 0 {
                PPU {
                    background_tile_map_bank0: vstd::array::spec_array_update(
                        self.background_tile_map_bank0,
                        address - 0x9800,
                        value,
                    ),
                    ..*self
                }
            } else {
                PPU {
                    background_tile_map_bank1: vstd::array::spec_array_update(
                        self.background_tile_map_bank1,
                        address - 0x9800,
                        BGMapAttributes::of_bits(value),
                    ),
                    ..*self
                }
            }
        }
    }

    /// The sprite table cannot be reached while the unit scans it or draws.
    pub open spec fn oam_locked(&self) -> bool {
        self.lcdc.display_enable && (self.lcd_status.mode == 2 || self.lcd_status.mode == 3)
    }

    /// What a read at 0xfe00 to 0xfeff returns; the unused addresses behind
    /// the table read as 0xff.
    pub open spec fn oam_value(&self, address: usize) -> u8 {
        if self.oam_locked() || address >= 0xfea0 {
            0xff
        } else {
            self.sprite_attribute_table[address - 0xfe00]
        }
    }

    pub open spec fn with_oam(&self, address: usize, value: u8) -> PPU {
        if self.oam_locked() {
            *self
        } else {
            PPU {
                sprite_attribute_table: vstd::array::spec_array_update(
                    self.sprite_attribute_table,
                    address - 0xfe00,
                    value,
                ),
                ..*self
            }
        }
    }

    /// What a read of a register of the unit returns; an address that is
    /// none reads as 0xff.
    pub open spec fn register_value(&self, address: usize) -> u8 {
        match address {
            0xff40 => self.lcdc.bits(),
            0xff41 => self.lcd_status.bits(),
            0xff42 => self.scroll_y,
            0xff43 => self.scroll_x,
            0xff44 => self.scanline,
            0xff45 => self.ly_compare,
            0xff47 => self.bg_palette,
            0xff48 => self.obj_palette_0,
            0xff49 => self.obj_palette_1,
            0xff4a => self.window_y,
            0xff4b => self.window_x,
            0xff4f => self.vram_bank_sel | 0xfe,
            0xff68 => self.cgb_background_palette.index_register(),
            0xff69 => self.cgb_background_palette.palette[self.cgb_background_palette.index as int],
            0xff6a => self.cgb_sprite_palette.index_register(),
            0xff6b => self.cgb_sprite_palette.palette[self.cgb_sprite_palette.index as int],
            0xff6c => if self.object_priority_mode {
                0x01
            } else {
                0x00
            },
            _ => 0xff,
        }
    }

    /// The unit after a register write; the scanline register is
    /// read-only, and a write to an address that is no register is dropped.
    pub open spec fn with_register(&self, address: usize, value: u8) -> PPU {
        match address {
            0xff40 => PPU { lcdc: LcdControl::of_bits(value), ..*self },
            0xff41 => PPU { lcd_status: self.lcd_status.with_bits(value), ..*self },
            0xff42 => PPU { scroll_y: value, ..*self },
            0xff43 => PPU { scroll_x: value, ..*self },
            0xff45 => PPU { ly_compare: value, ..*self },
            0xff47 => PPU { bg_palette: value, ..*self },
            0xff48 => PPU { obj_palette_0: value, ..*self },
            0xff49 => PPU { obj_palette_1: value, ..*self },
            0xff4a => PPU { window_y: value, ..*self },
            0xff4b => PPU { window_x: value, ..*self },
            0xff4f => PPU { vram_bank_sel: value & 0x01, ..*self },
            0xff68 => PPU {
                cgb_background_palette: self.cgb_background_palette.with_index(value),
                ..*self
            },
            0xff69 => PPU {
                cgb_background_palette: self.cgb_background_palette.with_data(
                    value,
                    self.lcd_status.mode,
                ),
                ..*self
            },
            0xff6a => PPU {
                cgb_sprite_palette: self.cgb_sprite_palette.with_index(value),
                ..*self
            },
            0xff6b => PPU {
                cgb_sprite_palette: self.cgb_sprite_palette.with_data(value, self.lcd_status.mode),
                ..*self
            },
            0xff6c => PPU { object_priority_mode: value & 0x01 == 0x01, ..*self },
            _ => *self,
        }
    }

    /// The unit at power-on: all memory zero, at the first tick of the OAM
    /// scan of scanline 0, the display off.
    pub fn new(dmg_mode: bool) -> (r: PPU)
        ensures
            r.wf(),
            r.lcdc == LcdControl::cleared(),
            r.lcd_status == LcdStatus::initial(),
            r.tick == 0,
            r.scanline == 0,
            r.dmg_mode == dmg_mode,
            !r.dmg_compatibility,
            !r.object_priority_mode,
            !r.screen_cleared,
            r.vram_bank_sel == 0,
            forall|i: int| 0 <= i < 69120 ==> r.frame_buffer[i] == 0,
            forall|i: int| 0 <= i < 0x1800 ==> r.tile_data_bank0[i] == 0 && r.tile_data_bank1[i] == 0,
            forall|i: int|
                0 <= i < 0x800 ==> r.background_tile_map_bank0[i] == 0
                    && r.background_tile_map_bank1[i] == BGMapAttributes::of_bits(0),
            forall|i: int| 0 <= i < 0xa0 ==> r.sprite_attribute_table[i] == 0,
            forall|i: int|
                0 <= i < 0x40 ==> r.cgb_background_palette.palette[i] == 0
                    && r.cgb_sprite_palette.palette[i] == 0,
            forall|x: int| 0 <= x < 160 ==> r.sprites_to_draw[x] == (0u8, Sprite::blank()),
            r.bg_palette == 0 && r.obj_palette_0 == 0 && r.obj_palette_1 == 0,
            r.scroll_x == 0 && r.scroll_y == 0 && r.window_x == 0 && r.window_y == 0,
            r.ly_compare == 0,
    {
        let no_attributes = BGMapAttributes::default();
        proof {
            lemma_field_bounds(0);
        }
        let nothing = (0u8, Sprite::default());
        PPU {
            frame_buffer: [0;69120],
            tile_data_bank0: [0;0x1800],
            tile_data_bank1: [0;0x1800],
            background_tile_map_bank0: [0;0x800],
            background_tile_map_bank1: [no_attributes;0x800],
            sprite_attribute_table: [0;0xa0],
            bg_palette: 0,
            obj_palette_0: 0,
            obj_palette_1: 0,
            cgb_background_palette: CgbPalette::new(),
            cgb_sprite_palette: CgbPalette::new(),
            lcdc: LcdControl::default(),
            lcd_status: LcdStatus::default(),
            sprites_to_draw: [nothing;160],
            scroll_x: 0,
            scroll_y: 0,
            window_x: 0,
            window_y: 0,
            tick: 0,
            scanline: 0,
            ly_compare: 0,
            vram_bank_sel: 0,
            dmg_mode,
            dmg_compatibility: false,
            object_priority_mode: false,
            screen_cleared: false,
        }
    }

    /// Where the timeline stands after this tick: tick, scanline and mode.
    fn timeline_step(&self) -> (r: (u16, u8, u8))
        requires
            self.wf(),
        ensures
            r.0 == (if self.period_ends() {
                0
            } else {
                self.tick + 1
            }),
            r.1 == self.next_scanline(),
            r.2 == self.next_mode(),
            (self.frame_complete() <==> self.lcd_status.mode == 0 && r.2 == 1),
    {
        let tick = self.tick + 1;
        let scanline = self.scanline;
        match self.lcd_status.mode {
            0 => {
                if tick == 204 {
                    if scanline + 1 == SCREEN_HEIGHT as u8 {
                        (0, scanline + 1, 1)
                    } else {
                        (0, scanline + 1, 2)
                    }
                } else {
                    (tick, scanline, 0)
                }
            },
            1 => {
                if tick == 456 {
                    if scanline + 1 == 154 {
                        (0, 0, 2)
                    } else {
                        (0, scanline + 1, 1)
                    }
                } else {
                    (tick, scanline, 1)
                }
            },
            2 => {
                if tick == 80 {
                    (0, scanline, 3)
                } else {
                    (tick, scanline, 2)
                }
            },
            _ => {
                if tick == 172 {
                    (0, scanline, 0)
                } else {
                    (tick, scanline, 3)
                }
            },
        }
    }

    /// Blanks the frame and rewinds the timeline.
    fn blank(&mut self)
        requires
            old(self).wf(),
        ensures
            *final(self) == old(self).blanked(),
            final(self).wf(),
            forall|i: int| 0 <= i < 69120 ==> final(self).frame_buffer[i] == 0xff,
    {
        self.frame_buffer = [0xff;69120];
        self.screen_cleared = true;
        self.tick = 0;
        self.scanline = 0;
        self.lcd_status.mode = 2;
    }

    /// Moves the timeline to where it stands after this tick and raises the
    /// interrupts that the move calls for.
    fn move_on(
        &mut self,
        new_tick: u16,
        new_scanline: u8,
        new_mode: u8,
        interrupt_controller: &mut InterruptController,
    )
        ensures
            *final(self) == (PPU {
                screen_cleared: false,
                tick: new_tick,
                scanline: new_scanline,
                lcd_status: if new_mode != old(self).lcd_status.mode || new_scanline != old(
                    self,
                ).scanline {
                    LcdStatus {
                        mode: new_mode,
                        coincidence_flag: new_scanline == old(self).ly_compare,
                        ..old(self).lcd_status
                    }
                } else {
                    old(self).lcd_status
                },
                ..*old(self)
            }),
            *final(interrupt_controller) == ({
                let first = if old(self).lcd_status.mode == 0 && new_mode == 1 {
                    old(interrupt_controller).with_request(0x01)
                } else {
                    *old(interrupt_controller)
                };
                if (new_mode != old(self).lcd_status.mode || new_scanline != old(self).scanline)
                    && !old(self).stat_line() && final(self).stat_line() {
                    first.with_request(0x02)
                } else {
                    first
                }
            }),
    {
        self.screen_cleared = false;
        self.tick = new_tick;
        if self.lcd_status.mode == 0 && new_mode == 1 {
            interrupt_controller.request(0x01);
        }
        if self.lcd_status.mode != new_mode || self.scanline != new_scanline {
            let prev_interrupt_state = self.interrupt_state();
            self.lcd_status.mode = new_mode;
            self.scanline = new_scanline;
            self.lcd_status.coincidence_flag = self.scanline == self.ly_compare;
            let interrupt_state = self.interrupt_state();
            if interrupt_state && !prev_interrupt_state {
                interrupt_controller.request(0x02);
            }
        }
    }

    /// One tick of the 4 MHz clock. Returns whether the frame buffer now
    /// holds a frame to show. A frame delivered while the display is off is
    /// white in every byte.
    pub fn execute_cycle(&mut self, interrupt_controller: &mut InterruptController) -> (r: bool)
        requires
            old(self).wf(),
        ensures
            *final(self) == old(self).after_cycle(),
            final(self).wf(),
            r == old(self).delivers_frame(),
            *final(interrupt_controller) == old(self).interrupts_after(*old(interrupt_controller)),
            r && !old(self).lcdc.display_enable ==> forall|i: int|
                0 <= i < 69120 ==> final(self).frame_buffer[i] == 0xff,
    {
        if !self.lcdc.display_enable {
            if !self.screen_cleared {
                self.blank();
                return true;
            }
            return false;
        }
        let (new_tick, new_scanline, new_mode) = self.timeline_step();
        let frame_ready = self.lcd_status.mode == 0 && new_mode == 1;
        if self.lcd_status.mode == 3 && self.tick < SCREEN_WIDTH as u16 {
            self.draw_pixel(self.tick as u8, self.scanline);
        } else if self.lcd_status.mode == 2 && self.tick == 0 {
            self.populate_sprites();
        }
        self.move_on(new_tick, new_scanline, new_mode, interrupt_controller);
        frame_ready
    }

    pub fn write_vram(&mut self, address: usize, value: u8)
        requires
            old(self).wf(),
            0x8000 <= address <= 0x9fff,
        ensures
            *final(self) == old(self).with_vram(address, value),
            final(self).wf(),
    {
        if self.lcd_status.mode == 3 && self.lcdc.display_enable {
            return ;
        }
        if address < 0x9800 {
            if self.vram_bank_sel == 0 {
                self.tile_data_bank0[address - 0x8000] = value;
            } else {
                self.tile_data_bank1[address - 0x8000] = value;
            }
        } else {
            if self.vram_bank_sel == 0 {
                self.background_tile_map_bank0[address - 0x9800] = value;
            } else {
                let mut attributes = self.background_tile_map_bank1[address - 0x9800];
                attributes.set_from_u8(value);
                self.background_tile_map_bank1[address - 0x9800] = attributes;
            }
        }
    }

    pub fn read_vram(&self, address: usize) -> (r: u8)
        requires
            self.wf(),
            0x8000 <= address <= 0x9fff,
        ensures
            r == self.vram_value(address),
    {
        if self.lcd_status.mode == 3 && self.lcdc.display_enable {
            return 0xff;
        }
        if address < 0x9800 {
            if self.vram_bank_sel == 0 {
                self.tile_data_bank0[address - 0x8000]
            } else {
                self.tile_data_bank1[address - 0x8000]
            }
        } else {
            if self.vram_bank_sel == 0 {
                self.background_tile_map_bank0[address - 0x9800]
            } else {
                self.background_tile_map_bank1[address - 0x9800].as_u8()
            }
        }
    }

    pub fn write_oam(&mut self, address: usize, value: u8)
        requires
            old(self).wf(),
            0xfe00 <= address < 0xfea0,
        ensures
            *final(self) == old(self).with_oam(address, value),
            final(self).wf(),
    {
        if !self.lcdc.display_enable || !(self.lcd_status.mode == 2 || self.lcd_status.mode == 3) {
            self.sprite_attribute_table[address - 0xfe00] = value;
        }
    }

    pub fn read_oam(&self, address: usize) -> (r: u8)
        requires
            0xfe00 <= address <= 0xfeff,
        ensures
            r == self.oam_value(address),
    {
        if (self.lcdc.display_enable && (self.lcd_status.mode == 2 || self.lcd_status.mode == 3))
            || address >= 0xfea0 {
            0xff
        } else {
            self.sprite_attribute_table[address - 0xfe00]
        }
    }

    /// The unit with byte `index` of the sprite table replaced, as the
    /// sprite-table DMA does it: no lock applies.
    pub open spec fn with_sprite_byte(&self, index: int, value: u8) -> PPU {
        PPU {
            sprite_attribute_table: vstd::array::spec_array_update(
                self.sprite_attribute_table,
                index,
                value,
            ),
            ..*self
        }
    }

    /// Stores a byte of the sprite table for the sprite-table DMA.
    pub fn store_sprite_byte(&mut self, index: usize, value: u8)
        requires
            old(self).wf(),
            index < 0xa0,
        ensures
            *final(self) == old(self).with_sprite_byte(index as int, value),
            final(self).wf(),
    {
        self.sprite_attribute_table[index] = value;
    }

    /// Switches the unit to the monochrome machine's way of colouring.
    pub fn enter_compatibility(&mut self)
        requires
            old(self).wf(),
        ensures
            *final(self) == (PPU { dmg_compatibility: true, ..*old(self) }),
            final(self).wf(),
    {
        self.dmg_compatibility = true;
    }

    pub fn write_register(&mut self, address: usize, value: u8)
        requires
            old(self).wf(),
        ensures
            *final(self) == old(self).with_register(address, value),
            final(self).wf(),
    {
        match address {
            0xff40 => self.lcdc.set_from_u8(value),
            0xff41 => self.lcd_status.set_from_u8(value),
            0xff42 => self.scroll_y = value,
            0xff43 => self.scroll_x = value,
            0xff45 => self.ly_compare = value,
            0xff47 => self.bg_palette = value,
            0xff48 => self.obj_palette_0 = value,
            0xff49 => self.obj_palette_1 = value,
            0xff4a => self.window_y = value,
            0xff4b => self.window_x = value,
            0xff4f => {
                proof {
                    lemma_field_bounds(value);
                }
                self.vram_bank_sel = value & 0x01
            },
            0xff68 => self.cgb_background_palette.write_index(value),
            0xff69 => self.cgb_background_palette.write_data(value, self.lcd_status.mode),
            0xff6a => self.cgb_sprite_palette.write_index(value),
            0xff6b => self.cgb_sprite_palette.write_data(value, self.lcd_status.mode),
            0xff6c => self.object_priority_mode = value & 0x01 == 0x01,
            _ => {},
        }
    }

    pub fn read_register(&self, address: usize) -> (r: u8)
        requires
            self.wf(),
        ensures
            r == self.register_value(address),
    {
        match address {
            0xff40 => self.lcdc.as_u8(),
            0xff41 => self.lcd_status.as_u8(),
            0xff42 => self.scroll_y,
            0xff43 => self.scroll_x,
            0xff44 => self.scanline,
            0xff45 => self.ly_compare,
            0xff47 => self.bg_palette,
            0xff48 => self.obj_palette_0,
            0xff49 => self.obj_palette_1,
            0xff4a => self.window_y,
            0xff4b => self.window_x,
            0xff4f => self.vram_bank_sel | 0xfe,
            0xff68 => self.cgb_background_palette.read_index(),
            0xff69 => self.cgb_background_palette.read_data(),
            0xff6a => self.cgb_sprite_palette.read_index(),
            0xff6b => self.cgb_sprite_palette.read_data(),
            0xff6c => if self.object_priority_mode {
                0x01
            } else {
                0x00
            },
            _ => 0xff,
        }
    }
}

/// The sprites selected for a scanline are ten at most, and each of them
/// covers the scanline.
pub proof fn lemma_scanned_bound(ppu: PPU, upto: int)
    ensures
        ppu.scanned(upto).len() <= 10,
        ppu.scanned(upto).len() <= (if upto < 0 {
            0
        } else {
            upto
        }),
        forall|i: int|
            0 <= i < ppu.scanned(upto).len() ==> ppu.covers_line((#[trigger] ppu.scanned(upto)[i]).y),
    decreases upto,
{
    if upto > 0 {
        lemma_scanned_bound(ppu, upto - 1);
    }
}

} // verus!
