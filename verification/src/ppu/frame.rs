//! A whole frame: what the ticks of 144 scanlines amount to when the
//! background is one tile of the darkest shade.

use vstd::prelude::*;
use crate::ppu::{PPU, LcdControl, LcdStatus, Rgb, Sprite, row_shade};

verus! {

/// Every set bit of a tile row of all ones is seen.
proof fn lemma_full_row(x: u8)
    requires
        x < 8,
    ensures
        0xffu8 & (0x80u8 >> x) != 0,
{
    assert(0xffu8 & (0x80u8 >> x) != 0) by (bit_vector)
        requires
            x < 8,
    ;
}

impl PPU {
    /// The unit after `n` ticks.
    pub open spec fn after_ticks(&self, n: nat) -> PPU
        decreases n,
    {
        if n == 0 {
            *self
        } else {
            self.after_ticks((n - 1) as nat).after_cycle()
        }
    }

    /// A scene of one shade: the display is on, window and sprites are
    /// off, tiles are numbered from 0x8000, the background has priority
    /// set, every row of tile 0 is of shade 3, and every entry of the tile
    /// maps names tile 0 of bank 0 with palette 0.
    pub open spec fn plain_scene(&self) -> bool {
        &&& self.lcdc.display_enable
        &&& !self.lcdc.window_display_enable
        &&& !self.lcdc.sprite_display_enable
        &&& self.lcdc.tile_address_mode
        &&& self.lcdc.bg_window_display_priority
        &&& forall|i: int| 0 <= i < 16 ==> #[trigger] self.tile_data_bank0[i] == 0xff
        &&& forall|i: int| 0 <= i < 0x800 ==> #[trigger] self.background_tile_map_bank0[i] == 0
        &&& forall|i: int|
            0 <= i < 0x800 ==> !(#[trigger] self.background_tile_map_bank1[i]).vram_bank
                && self.background_tile_map_bank1[i].palette == 0
    }

    /// The colour that the background palette gives to shade 3.
    pub open spec fn darkest(&self) -> Rgb {
        if self.dmg_compatibility {
            self.bg_draw_color(3)
        } else {
            self.cgb_background_palette.color(0, 3)
        }
    }

    /// Whether the first `pixels` pixels of the frame, counted row by row,
    /// have the colour `c`.
    pub open spec fn painted(&self, c: Rgb, pixels: int) -> bool {
        forall|j: int|
            0 <= j < pixels ==> #[trigger] self.frame_buffer[3 * j] == c.r && self.frame_buffer[3
                * j + 1] == c.g && self.frame_buffer[3 * j + 2] == c.b
    }

    /// The number of pixels that are composed `n` ticks into a frame: 160
    /// for each scanline that is done, and one for each tick of the drawing
    /// period of the current one. A scanline has 456 ticks, of which the
    /// first 80 are the OAM scan.
    pub open spec fn pixels_at(n: int) -> int {
        let t = n % 456;
        (n / 456) * 160 + (if t < 80 {
            0
        } else if t < 240 {
            t - 80
        } else {
            160
        })
    }

    /// Whether `now` is where a frame that starts in `self` stands after
    /// `n` ticks, of the 65664 that the 144 visible scanlines take: the
    /// timeline is at tick `n` of the frame, the pixels due
    /// by then are painted, no sprite pixel is set once the first scan has
    /// begun, and nothing but the frame, the sprite pixels and the timeline
    /// has changed.
    pub open spec fn frame_stands_at(&self, now: PPU, n: int) -> bool {
        let t = n % 456;
        &&& now == (PPU {
            frame_buffer: now.frame_buffer,
            sprites_to_draw: now.sprites_to_draw,
            tick: now.tick,
            scanline: now.scanline,
            lcd_status: LcdStatus {
                mode: now.lcd_status.mode,
                coincidence_flag: now.lcd_status.coincidence_flag,
                ..self.lcd_status
            },
            screen_cleared: now.screen_cleared,
            ..*self
        })
        &&& now.scanline == n / 456
        &&& if n == 65664 {
            now.lcd_status.mode == 1 && now.tick == 0
        } else if t < 80 {
            now.lcd_status.mode == 2 && now.tick == t
        } else if t < 252 {
            now.lcd_status.mode == 3 && now.tick == t - 80
        } else {
            now.lcd_status.mode == 0 && now.tick == t - 252
        }
        &&& n >= 1 ==> forall|x: int| 0 <= x < 160 ==> (#[trigger] now.sprites_to_draw[x]).0 == 0
        &&& now.painted(self.darkest(), PPU::pixels_at(n))
    }
}

/// The control byte 0x91 switches the display and the background on,
/// window and sprites off, and numbers tiles from 0x8000.
pub proof fn lemma_control_of_plain_scene()
    ensures
        LcdControl::of_bits(0x91) == (LcdControl {
            display_enable: true,
            window_tile_map_select: false,
            window_display_enable: false,
            tile_address_mode: true,
            bg_tile_map_select: false,
            sprite_size: false,
            sprite_display_enable: false,
            bg_window_display_priority: true,
        }),
{
    assert(0x91u8 & 0x80 == 0x80 && 0x91u8 & 0x40 != 0x40 && 0x91u8 & 0x20 != 0x20 && 0x91u8 & 0x10
        == 0x10 && 0x91u8 & 0x08 != 0x08 && 0x91u8 & 0x04 != 0x04 && 0x91u8 & 0x02 != 0x02
        && 0x91u8 & 0x01 == 0x01) by (bit_vector);
}

/// With sprites switched off no column has a sprite pixel.
proof fn lemma_no_sprites(p: PPU)
    requires
        !p.lcdc.sprite_display_enable,
    ensures
        forall|x: int| 0 <= x < 160 ==> #[trigger] p.line_picks()[x] == (0u8, Sprite::blank()),
{
    reveal(PPU::line_picks);
    let nothing = vstd::array::spec_array_fill_for_copy_type::<(u8, Sprite), 160>(
        (0u8, Sprite::blank()),
    );
    assert(p.line_sprites() =~= Seq::<Sprite>::empty());
    assert forall|x: int| 0 <= x < 160 implies #[trigger] nothing[x] == p.picked(
        p.line_sprites(),
        x as u8,
        0,
    ) by {
        assert(nothing@[x] == (0u8, Sprite::blank()));
    }
    assert(p.is_line_picks(nothing));
}

/// In a scene of one shade every pixel without a sprite pixel has the
/// colour of shade 3.
proof fn lemma_pixel_colour(p: PPU, x: u8, y: u8)
    requires
        p.plain_scene(),
        x < 160,
        y < 144,
        p.sprites_to_draw[x as int].0 == 0,
    ensures
        p.pixel_color(x, y) == p.darkest(),
{
    let entry = p.map_entry(x, y);
    assert(0 <= entry < 0x800);
    let attributes = p.background_tile_map_bank1[entry];
    assert(p.background_tile_map_bank0[entry] == 0);
    let px = p.map_column(x, y) % 8;
    let py = p.map_row(x, y) % 8;
    let fx: u8 = if attributes.horizontal_flip {
        (7 - px) as u8
    } else {
        px
    };
    let fy: u8 = if attributes.vertical_flip {
        (7 - py) as u8
    } else {
        py
    };
    lemma_full_row(fx);
    assert(p.tile_data_bank0[fy * 2] == 0xff);
    assert(p.tile_data_bank0[fy * 2 + 1] == 0xff);
    assert(p.bg_tile_start(0) == 0);
    assert(p.bg_shade(x, y) == row_shade(p.tile_data_bank0, fy * 2, fx));
    assert(p.bg_shade(x, y) == 3);
}

/// One tick of a frame of a scene of one shade.
proof fn lemma_frame_tick(start: PPU, now: PPU, n: int)
    requires
        start.plain_scene(),
        0 <= n < 65664,
        start.frame_stands_at(now, n),
    ensures
        start.frame_stands_at(now.after_cycle(), n + 1),
        now.delivers_frame() == (n + 1 == 65664),
{
    let t = n % 456;
    let line = n / 456;
    let next = now.after_cycle();
    let c = start.darkest();
    assert(next == now.advanced());
    assert(now.plain_scene());
    assert(now.darkest() == c);
    if t == 0 {
        lemma_no_sprites(now);
    }
    if 80 <= t < 240 {
        reveal(PPU::frame_with_pixel);
        let x = (t - 80) as u8;
        let y = line as u8;
        lemma_pixel_colour(now, x, y);
        let at = (y * 160 + x) * 3;
        assert(at == 3 * PPU::pixels_at(n));
        assert(PPU::pixels_at(n + 1) == PPU::pixels_at(n) + 1);
        assert forall|j: int| 0 <= j < PPU::pixels_at(n + 1) implies #[trigger] next.frame_buffer[3
            * j] == c.r && next.frame_buffer[3 * j + 1] == c.g && next.frame_buffer[3 * j + 2]
            == c.b by {
            if j < PPU::pixels_at(n) {
                assert(now.frame_buffer[3 * j] == c.r);
            }
        }
    } else {
        assert(PPU::pixels_at(n + 1) == PPU::pixels_at(n));
        assert forall|j: int| 0 <= j < PPU::pixels_at(n + 1) implies #[trigger] next.frame_buffer[3
            * j] == c.r && next.frame_buffer[3 * j + 1] == c.g && next.frame_buffer[3 * j + 2]
            == c.b by {
            assert(now.frame_buffer[3 * j] == c.r);
        }
    }
}

/// Tick by tick, a frame of a scene of one shade is painted in that shade,
/// and no frame is delivered before the last tick.
proof fn lemma_frame_ticks(start: PPU, n: nat)
    requires
        start.plain_scene(),
        start.scanline == 0,
        start.lcd_status.mode == 2,
        start.tick == 0,
        n <= 65664,
    ensures
        start.frame_stands_at(start.after_ticks(n), n as int),
        n >= 1 ==> start.after_ticks((n - 1) as nat).delivers_frame() == (n == 65664),
    decreases n,
{
    if n > 0 {
        lemma_frame_ticks(start, (n - 1) as nat);
        lemma_frame_tick(start, start.after_ticks((n - 1) as nat), n - 1);
    }
}

/// Whether `now` is where the V-blank that follows the frame `done`
/// stands `n` ticks into the frame: in one of the ten lines 144 to 153, or,
/// after 70224 ticks, at the start of the next frame; the frame itself is
/// not touched.
pub open spec fn vblank_stands_at(done: PPU, now: PPU, n: int) -> bool {
    &&& now == (PPU {
        tick: now.tick,
        scanline: now.scanline,
        lcd_status: LcdStatus {
            mode: now.lcd_status.mode,
            coincidence_flag: now.lcd_status.coincidence_flag,
            ..done.lcd_status
        },
        ..done
    })
    &&& if n == 70224 {
        now.scanline == 0 && now.lcd_status.mode == 2 && now.tick == 0
    } else {
        now.scanline == n / 456 && now.lcd_status.mode == 1 && now.tick == n % 456
    }
}

/// Tick by tick, V-blank leaves the frame alone and delivers no frame.
proof fn lemma_vblank_ticks(start: PPU, n: nat)
    requires
        start.plain_scene(),
        start.scanline == 0,
        start.lcd_status.mode == 2,
        start.tick == 0,
        65664 <= n <= 70224,
    ensures
        vblank_stands_at(start.after_ticks(65664), start.after_ticks(n), n as int),
        n > 65664 ==> !start.after_ticks((n - 1) as nat).delivers_frame(),
    decreases n,
{
    lemma_frame_ticks(start, 65664);
    if n > 65664 {
        lemma_vblank_ticks(start, (n - 1) as nat);
        let now = start.after_ticks((n - 1) as nat);
        assert(now.lcdc.display_enable);
        assert(now.after_cycle() == now.advanced());
    }
}

/// A frame of one shade: from the start of a frame, with the display on,
/// window and sprites off and every background tile of shade 3, exactly
/// one of the 70224 ticks of the frame delivers a frame, the one that ends
/// scanline 143. Every pixel of the frame then has the colour that the
/// background palette gives to shade 3, and V-blank is requested. After the
/// ten lines of V-blank the frame is still so, and the next frame begins.
pub proof fn lemma_frame_of_one_shade(start: PPU, ic: crate::interrupts::InterruptController)
    requires
        start.plain_scene(),
        start.scanline == 0,
        start.lcd_status.mode == 2,
        start.tick == 0,
    ensures
        forall|n: nat|
            n < 70224 ==> (#[trigger] start.after_ticks(n)).delivers_frame() == (n + 1 == 65664),
        start.after_ticks(65664).painted(start.darkest(), 23040),
        start.after_ticks(65664).scanline == 144,
        start.after_ticks(65664).lcd_status.mode == 1,
        start.after_ticks(65663).interrupts_after(ic).interrupt_flag & 0x01 == 0x01,
        start.after_ticks(70224).frame_buffer == start.after_ticks(65664).frame_buffer,
        start.after_ticks(70224).scanline == 0,
        start.after_ticks(70224).lcd_status.mode == 2,
        start.after_ticks(70224).tick == 0,
{
    assert forall|n: nat| n < 70224 implies (#[trigger] start.after_ticks(n)).delivers_frame() == (n
        + 1 == 65664) by {
        if n < 65664 {
            lemma_frame_ticks(start, n + 1);
        } else {
            lemma_vblank_ticks(start, n + 1);
        }
    }
    lemma_frame_ticks(start, 65664);
    lemma_vblank_ticks(start, 70224);
    let last = start.after_ticks(65663);
    assert(last.delivers_frame());
    assert(last.frame_complete());
    let flag = ic.interrupt_flag;
    assert((flag | 0x01) & 0x01 == 0x01 && ((flag | 0x01) | 0x02) & 0x01 == 0x01) by (bit_vector);
}

} // verus!
