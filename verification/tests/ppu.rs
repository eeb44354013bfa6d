use gbcore::interrupts::InterruptController;
use gbcore::ppu::{bg_xy_idx, sort_by_x, BGMapAttributes, CgbPalette, LcdControl, LcdStatus, Rgb, Sprite, PPU};

const FRAME_TICKS: usize = 154 * 456;

fn sprite(x: u8, tile: u8) -> Sprite {
    Sprite { y: 16, x, tile_number: tile, bg_priority: false, flip_y: false, flip_x: false, dmg_palette: false, vram_bank: false, cgb_palette: 0 }
}

fn set_colour(ppu: &mut PPU, sprite_palette: bool, palette: u8, shade: u8, raw: u16) {
    let (index, data) = if sprite_palette { (0xff6a, 0xff6b) } else { (0xff68, 0xff69) };
    ppu.write_register(index, 0x80 | (palette * 8 + shade * 2));
    ppu.write_register(data, raw as u8);
    ppu.write_register(data, (raw >> 8) as u8);
}

fn run_frame(ppu: &mut PPU, ic: &mut InterruptController) -> usize {
    let mut frames = 0;
    for _ in 0..FRAME_TICKS {
        if ppu.execute_cycle(ic) {
            frames += 1;
        }
    }
    frames
}

fn pixel(ppu: &PPU, x: usize, y: usize) -> Rgb {
    let at = (y * 160 + x) * 3;
    Rgb { r: ppu.frame_buffer[at], g: ppu.frame_buffer[at + 1], b: ppu.frame_buffer[at + 2] }
}

#[test]
fn disabled_display_delivers_one_white_frame() {
    let mut ppu = PPU::new(false);
    let mut ic = InterruptController::new();
    ppu.write_register(0xff42, 0x33);
    ppu.write_register(0xff47, 0xe4);
    assert!(ppu.execute_cycle(&mut ic));
    assert!(ppu.frame_buffer.iter().all(|b| *b == 0xff));
    for _ in 0..1000 {
        assert!(!ppu.execute_cycle(&mut ic));
    }
    assert_eq!(ic.interrupt_flag, 0);
}

#[test]
fn switching_the_display_off_blanks_the_frame_and_rewinds() {
    let mut ppu = PPU::new(false);
    let mut ic = InterruptController::new();
    ppu.write_register(0xff40, 0x91);
    for _ in 0..456 * 3 + 100 {
        ppu.execute_cycle(&mut ic);
    }
    assert_eq!(ppu.read_register(0xff44), 3);
    assert!(ppu.frame_buffer.iter().any(|b| *b != 0xff));
    ppu.write_register(0xff40, 0x11);
    assert!(ppu.execute_cycle(&mut ic));
    assert!(ppu.frame_buffer.iter().all(|b| *b == 0xff));
    assert!(!ppu.execute_cycle(&mut ic));
    ppu.write_register(0xff40, 0x91);
    assert_eq!(ppu.read_register(0xff44), 0);
    assert_eq!(ppu.read_register(0xff41) & 0x03, 2);
}

#[test]
fn full_frame_of_one_shade() {
    let mut ppu = PPU::new(false);
    let mut ic = InterruptController::new();
    for i in 0..16 {
        ppu.write_vram(0x8000 + i, 0xff);
    }
    set_colour(&mut ppu, false, 0, 3, 0x001f);
    ppu.write_register(0xff40, 0x91);
    assert_eq!(run_frame(&mut ppu, &mut ic), 1);
    let shade3 = ppu.cgb_background_palette.get_color(0, 3);
    assert_eq!(shade3, Rgb { r: 201, g: 0, b: 46 });
    for y in 0..144 {
        for x in 0..160 {
            assert_eq!(pixel(&ppu, x, y), shade3);
        }
    }
    assert_eq!(ic.interrupt_flag & 0x01, 0x01);
}

#[test]
fn scanline_timing() {
    let mut ppu = PPU::new(false);
    let mut ic = InterruptController::new();
    ppu.write_register(0xff40, 0x80);
    assert_eq!(ppu.read_register(0xff41) & 0x03, 2);
    for _ in 0..79 {
        ppu.execute_cycle(&mut ic);
    }
    assert_eq!(ppu.read_register(0xff41) & 0x03, 2);
    ppu.execute_cycle(&mut ic);
    assert_eq!(ppu.read_register(0xff41) & 0x03, 3);
    for _ in 0..172 {
        ppu.execute_cycle(&mut ic);
    }
    assert_eq!(ppu.read_register(0xff41) & 0x03, 0);
    for _ in 0..203 {
        ppu.execute_cycle(&mut ic);
    }
    assert_eq!(ppu.read_register(0xff41) & 0x03, 0);
    assert_eq!(ppu.read_register(0xff44), 0);
    ppu.execute_cycle(&mut ic);
    assert_eq!(ppu.read_register(0xff41) & 0x03, 2);
    assert_eq!(ppu.read_register(0xff44), 1);
    for _ in 0..456 * 143 - 1 {
        assert!(!ppu.execute_cycle(&mut ic));
    }
    assert_eq!(ppu.read_register(0xff44), 143);
    assert!(ppu.execute_cycle(&mut ic));
    assert_eq!(ppu.read_register(0xff44), 144);
    assert_eq!(ppu.read_register(0xff41) & 0x03, 1);
    assert_eq!(ic.interrupt_flag & 0x01, 0x01);
    for _ in 0..456 * 10 - 1 {
        ppu.execute_cycle(&mut ic);
    }
    assert_eq!(ppu.read_register(0xff44), 153);
    ppu.execute_cycle(&mut ic);
    assert_eq!(ppu.read_register(0xff44), 0);
    assert_eq!(ppu.read_register(0xff41) & 0x03, 2);
}

#[test]
fn status_interrupt_fires_on_rising_edge() {
    let mut ppu = PPU::new(false);
    let mut ic = InterruptController::new();
    ppu.write_register(0xff40, 0x80);
    // LY = LYC source, LYC = 2
    ppu.write_register(0xff45, 2);
    ppu.write_register(0xff41, 0x40);
    for _ in 0..456 * 2 - 1 {
        ppu.execute_cycle(&mut ic);
    }
    assert_eq!(ic.interrupt_flag & 0x02, 0);
    ppu.execute_cycle(&mut ic);
    assert_eq!(ic.interrupt_flag & 0x02, 0x02);
    assert_eq!(ppu.read_register(0xff41) & 0x04, 0x04);
    ic.write(0xff0f, 0);
    // the line stays high through scanline 2: no second request
    for _ in 0..455 {
        ppu.execute_cycle(&mut ic);
    }
    assert_eq!(ic.interrupt_flag & 0x02, 0);
    ppu.execute_cycle(&mut ic);
    assert_eq!(ppu.read_register(0xff41) & 0x04, 0);
    // H-blank source
    ppu.write_register(0xff41, 0x08);
    for _ in 0..80 + 172 - 1 {
        ppu.execute_cycle(&mut ic);
    }
    assert_eq!(ic.interrupt_flag & 0x02, 0);
    ppu.execute_cycle(&mut ic);
    assert_eq!(ic.interrupt_flag & 0x02, 0x02);
}

#[test]
fn video_memory_is_locked_while_drawing() {
    let mut ppu = PPU::new(false);
    let mut ic = InterruptController::new();
    ppu.write_register(0xff40, 0x80);
    ppu.write_vram(0x8000, 0x12);
    assert_eq!(ppu.read_vram(0x8000), 0x12);
    // OAM scan: the sprite table is locked, video memory is not
    ppu.write_oam(0xfe00, 0x34);
    assert_eq!(ppu.read_oam(0xfe00), 0xff);
    assert_eq!(ppu.sprite_attribute_table[0], 0);
    for _ in 0..80 {
        ppu.execute_cycle(&mut ic);
    }
    ppu.write_vram(0x8000, 0x56);
    assert_eq!(ppu.read_vram(0x8000), 0xff);
    assert_eq!(ppu.tile_data_bank0[0], 0x12);
    assert_eq!(ppu.read_oam(0xfe00), 0xff);
    for _ in 0..172 {
        ppu.execute_cycle(&mut ic);
    }
    assert_eq!(ppu.read_vram(0x8000), 0x12);
    ppu.write_oam(0xfe00, 0x34);
    assert_eq!(ppu.read_oam(0xfe00), 0x34);
    assert_eq!(ppu.read_oam(0xfea0), 0xff);
    assert_eq!(ppu.read_oam(0xfeff), 0xff);
}

#[test]
fn video_memory_banks() {
    let mut ppu = PPU::new(false);
    ppu.write_vram(0x8010, 0x01);
    ppu.write_vram(0x9800, 0x02);
    ppu.write_register(0xff4f, 0xff);
    assert_eq!(ppu.read_register(0xff4f), 0xff);
    assert_eq!(ppu.read_vram(0x8010), 0x00);
    ppu.write_vram(0x8010, 0x03);
    ppu.write_vram(0x9800, 0xef);
    assert_eq!(ppu.read_vram(0x9800), 0xef);
    let attributes = ppu.background_tile_map_bank1[0];
    assert!(attributes.bg_oam_priority && attributes.vertical_flip && attributes.horizontal_flip);
    assert!(!attributes.unused && attributes.vram_bank);
    assert_eq!(attributes.palette, 7);
    ppu.write_register(0xff4f, 0x00);
    assert_eq!(ppu.read_register(0xff4f), 0xfe);
    assert_eq!(ppu.read_vram(0x8010), 0x01);
    assert_eq!(ppu.read_vram(0x9800), 0x02);
    assert_eq!(ppu.tile_data_bank1[0x10], 0x03);
}

#[test]
fn register_read_back() {
    let mut ppu = PPU::new(false);
    for (address, value) in [(0xff40usize, 0x7fu8), (0xff42, 1), (0xff43, 2), (0xff45, 3), (0xff47, 4), (0xff48, 5), (0xff49, 6), (0xff4a, 7), (0xff4b, 8)] {
        ppu.write_register(address, value);
        assert_eq!(ppu.read_register(address), value);
    }
    ppu.write_register(0xff41, 0xff);
    assert_eq!(ppu.read_register(0xff41), 0xf8 | 0x02);
    ppu.write_register(0xff44, 0x55);
    assert_eq!(ppu.read_register(0xff44), 0);
    ppu.write_register(0xff6c, 0x01);
    assert_eq!(ppu.read_register(0xff6c), 0x01);
    assert_eq!(ppu.read_register(0xff4c), 0xff);
    ppu.write_register(0xff4c, 0x12);
    let mut control = LcdControl::default();
    control.set_from_u8(0xa5);
    assert_eq!(control.as_u8(), 0xa5);
    let mut status = LcdStatus::default();
    assert_eq!(status.as_u8(), 0x82);
    status.set_from_u8(0x28);
    assert_eq!(status.as_u8(), 0xaa);
    let mut attributes = BGMapAttributes::default();
    assert_eq!(attributes.as_u8(), 0);
    attributes.set_from_u8(0x9d);
    assert_eq!(attributes.as_u8(), 0x9d);
}

#[test]
fn palette_memory_and_colour_correction() {
    let mut palette = CgbPalette::new();
    palette.write_index(0x80 | 0x3e);
    assert_eq!(palette.read_index(), 0xbe);
    palette.write_data(0xff, 0);
    palette.write_data(0x7f, 0);
    assert_eq!(palette.read_index(), 0x80);
    assert_eq!(palette.palette[0x3e], 0xff);
    assert_eq!(palette.palette[0x3f], 0x7f);
    // white: every component 31
    assert_eq!(palette.get_color(7, 3), Rgb { r: 248, g: 248, b: 248 });
    // red 1, green 2, blue 3: 0b00011_00010_00001
    palette.write_index(0x80);
    palette.write_data(0x41, 0);
    palette.write_data(0x0c, 0);
    assert_eq!(palette.get_color(0, 0), Rgb { r: (13 + 4 + 3) / 2, g: (6 + 3) * 2, b: (3 + 4 + 33) / 2 });
    // green 1 alone
    palette.write_data(0x20, 0);
    palette.write_data(0x00, 0);
    assert_eq!(palette.get_color(0, 1), Rgb { r: 1, g: 6, b: 1 });
    // writes while drawing are dropped, but the index still steps
    palette.write_index(0x80);
    palette.write_data(0x00, 3);
    assert_eq!(palette.read_index(), 0x81);
    assert_eq!(palette.palette[0], 0x41);
    // without auto-increment the index stays
    palette.write_index(0x05);
    palette.write_data(0x11, 1);
    assert_eq!(palette.read_index(), 0x05);
    assert_eq!(palette.read_data(), 0x11);
}

#[test]
fn tile_map_index() {
    assert_eq!(bg_xy_idx(0, 0, false), 0);
    assert_eq!(bg_xy_idx(31, 31, false), 0x3ff);
    assert_eq!(bg_xy_idx(5, 2, true), 0x400 + 69);
}

#[test]
fn sprites_sort_by_column_keeping_table_order() {
    let sprites = vec![sprite(30, 0), sprite(10, 1), sprite(30, 2), sprite(10, 3), sprite(5, 4), sprite(200, 5)];
    let sorted = sort_by_x(sprites);
    let order: Vec<(u8, u8)> = sorted.iter().map(|s| (s.x, s.tile_number)).collect();
    assert_eq!(order, vec![(5, 4), (10, 1), (10, 3), (30, 0), (30, 2), (200, 5)]);
    assert!(sort_by_x(vec![]).is_empty());
}

fn sprite_scene(ppu: &mut PPU) {
    // tile 1: shade 1 everywhere; tile 2: shade 2 in its left half
    for row in 0..8 {
        ppu.write_vram(0x8010 + 2 * row, 0xff);
        ppu.write_vram(0x8011 + 2 * row, 0x00);
        ppu.write_vram(0x8020 + 2 * row, 0x00);
        ppu.write_vram(0x8021 + 2 * row, 0xf0);
    }
    set_colour(ppu, false, 0, 0, 0x7fff);
    set_colour(ppu, true, 0, 1, 0x001f);
    set_colour(ppu, true, 0, 2, 0x03e0);
    set_colour(ppu, true, 1, 2, 0x7c00);
}

fn put_sprite(ppu: &mut PPU, n: usize, y: u8, x: u8, tile: u8, flags: u8) {
    ppu.write_oam(0xfe00 + 4 * n, y);
    ppu.write_oam(0xfe01 + 4 * n, x);
    ppu.write_oam(0xfe02 + 4 * n, tile);
    ppu.write_oam(0xfe03 + 4 * n, flags);
}

#[test]
fn sprites_are_drawn_over_the_background() {
    let mut ppu = PPU::new(false);
    let mut ic = InterruptController::new();
    sprite_scene(&mut ppu);
    // sprite 0 at screen (8, 0) with tile 2, sprite 1 at (12, 0) with tile 1
    put_sprite(&mut ppu, 0, 16, 16, 2, 0x00);
    put_sprite(&mut ppu, 1, 16, 20, 1, 0x00);
    ppu.write_register(0xff40, 0x93);
    run_frame(&mut ppu, &mut ic);
    let white = Rgb { r: 248, g: 248, b: 248 };
    let red = ppu.cgb_sprite_palette.get_color(0, 1);
    let green = ppu.cgb_sprite_palette.get_color(0, 2);
    assert_eq!(pixel(&ppu, 7, 0), white);
    // left half of sprite 0 is opaque
    assert_eq!(pixel(&ppu, 8, 0), green);
    assert_eq!(pixel(&ppu, 11, 0), green);
    // its right half is transparent: sprite 1 shows
    assert_eq!(pixel(&ppu, 12, 0), red);
    assert_eq!(pixel(&ppu, 19, 0), red);
    assert_eq!(pixel(&ppu, 20, 0), white);
    assert_eq!(pixel(&ppu, 8, 7), green);
    assert_eq!(pixel(&ppu, 8, 8), white);
}

#[test]
fn sprite_flips_and_palettes() {
    let mut ppu = PPU::new(false);
    let mut ic = InterruptController::new();
    sprite_scene(&mut ppu);
    // flipped horizontally, palette 1: the opaque half is on the right
    put_sprite(&mut ppu, 0, 16, 8, 2, 0x21);
    ppu.write_register(0xff40, 0x93);
    run_frame(&mut ppu, &mut ic);
    let white = Rgb { r: 248, g: 248, b: 248 };
    let blue = ppu.cgb_sprite_palette.get_color(1, 2);
    assert_eq!(pixel(&ppu, 0, 0), white);
    assert_eq!(pixel(&ppu, 3, 0), white);
    assert_eq!(pixel(&ppu, 4, 0), blue);
    assert_eq!(pixel(&ppu, 7, 0), blue);
}

#[test]
fn at_most_ten_sprites_per_line() {
    let mut ppu = PPU::new(false);
    let mut ic = InterruptController::new();
    sprite_scene(&mut ppu);
    for n in 0..12 {
        put_sprite(&mut ppu, n, 16, 8 + 8 * n as u8, 1, 0x00);
    }
    ppu.write_register(0xff40, 0x93);
    run_frame(&mut ppu, &mut ic);
    let white = Rgb { r: 248, g: 248, b: 248 };
    let red = ppu.cgb_sprite_palette.get_color(0, 1);
    assert_eq!(pixel(&ppu, 0, 0), red);
    assert_eq!(pixel(&ppu, 79, 0), red);
    assert_eq!(pixel(&ppu, 80, 0), white);
    assert_eq!(pixel(&ppu, 95, 0), white);
}

#[test]
fn column_priority_orders_overlapping_sprites() {
    for by_column in [false, true] {
        let mut ppu = PPU::new(false);
        let mut ic = InterruptController::new();
        sprite_scene(&mut ppu);
        // sprite 0 (red) at column 4, sprite 1 (green half) at column 0
        put_sprite(&mut ppu, 0, 16, 12, 1, 0x00);
        put_sprite(&mut ppu, 1, 16, 8, 2, 0x00);
        // make tile 2 opaque everywhere
        for row in 0..8 {
            ppu.write_vram(0x8021 + 2 * row, 0xff);
        }
        ppu.write_register(0xff6c, if by_column { 1 } else { 0 });
        ppu.write_register(0xff40, 0x93);
        run_frame(&mut ppu, &mut ic);
        let red = ppu.cgb_sprite_palette.get_color(0, 1);
        let green = ppu.cgb_sprite_palette.get_color(0, 2);
        assert_eq!(pixel(&ppu, 0, 0), green);
        assert_eq!(pixel(&ppu, 8, 0), red);
        // where both lie, the first in drawing order wins
        assert_eq!(pixel(&ppu, 5, 0), if by_column { green } else { red });
    }
}

#[test]
fn scrolling_and_window() {
    let mut ppu = PPU::new(false);
    let mut ic = InterruptController::new();
    // tile 1: shade 3; map entry (1, 0) of the first map uses it; the second
    // map is all tile 1
    for i in 0..16 {
        ppu.write_vram(0x8010 + i, 0xff);
    }
    ppu.write_vram(0x9801, 1);
    for i in 0..0x400 {
        ppu.write_vram(0x9c00 + i, 1);
    }
    set_colour(&mut ppu, false, 0, 0, 0x7fff);
    set_colour(&mut ppu, false, 0, 3, 0x0000);
    // scroll by four pixels; window on the second map from (100, 50)
    ppu.write_register(0xff43, 4);
    ppu.write_register(0xff4a, 50);
    ppu.write_register(0xff4b, 107);
    ppu.write_register(0xff40, 0xf1);
    run_frame(&mut ppu, &mut ic);
    let white = Rgb { r: 248, g: 248, b: 248 };
    let black = Rgb { r: 0, g: 0, b: 0 };
    assert_eq!(pixel(&ppu, 3, 0), white);
    assert_eq!(pixel(&ppu, 4, 0), black);
    assert_eq!(pixel(&ppu, 11, 0), black);
    assert_eq!(pixel(&ppu, 12, 0), white);
    assert_eq!(pixel(&ppu, 4, 8), white);
    assert_eq!(pixel(&ppu, 99, 50), white);
    assert_eq!(pixel(&ppu, 100, 49), white);
    assert_eq!(pixel(&ppu, 100, 50), black);
    assert_eq!(pixel(&ppu, 159, 143), black);
}

#[test]
fn signed_tile_addressing() {
    let mut ppu = PPU::new(false);
    let mut ic = InterruptController::new();
    // tile 0 in signed mode lives at 0x9000, tile 0x80 at 0x8800
    for i in 0..16 {
        ppu.write_vram(0x9000 + i, 0xff);
    }
    ppu.write_vram(0x9801, 0x80);
    set_colour(&mut ppu, false, 0, 0, 0x7fff);
    set_colour(&mut ppu, false, 0, 3, 0x0000);
    ppu.write_register(0xff40, 0x81);
    run_frame(&mut ppu, &mut ic);
    assert_eq!(pixel(&ppu, 0, 0), Rgb { r: 0, g: 0, b: 0 });
    assert_eq!(pixel(&ppu, 8, 0), Rgb { r: 248, g: 248, b: 248 });
}

#[test]
fn compatibility_mode_uses_palette_registers() {
    let mut ppu = PPU::new(true);
    let mut ic = InterruptController::new();
    ppu.enter_compatibility();
    for i in 0..16 {
        ppu.write_vram(0x8000 + i, 0xff);
    }
    // shade 3 maps to colour 1 of palette 0
    ppu.write_register(0xff47, 0x40);
    set_colour(&mut ppu, false, 0, 1, 0x001f);
    ppu.write_register(0xff40, 0x91);
    run_frame(&mut ppu, &mut ic);
    assert_eq!(pixel(&ppu, 80, 72), Rgb { r: 201, g: 0, b: 46 });
    // with the background switched off the sprite layer supplies the pixel
    ppu.write_register(0xff40, 0x90);
    run_frame(&mut ppu, &mut ic);
    assert_eq!(pixel(&ppu, 80, 72), ppu.cgb_sprite_palette.get_color(0, 0));
}
