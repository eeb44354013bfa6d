use gbcore::cartridge::Cartridge;
use gbcore::mmu::{DmaConfig, DmaType, Mmu, MmuError};

fn cartridge() -> Cartridge {
    let mut rom = vec![0u8; 0x8000];
    for (i, e) in rom.iter_mut().enumerate() {
        *e = (i % 251) as u8;
    }
    rom[0x147] = 0;
    match Cartridge::new(rom, &[]) {
        Ok(c) => c,
        Err(_) => panic!("cartridge refused"),
    }
}

fn mmu(dmg_mode: bool) -> Mmu {
    let mut boot = vec![0xb0u8; if dmg_mode { 0x100 } else { 0x900 }];
    boot[0] = 0xb1;
    match Mmu::new(&boot, cartridge(), dmg_mode) {
        Ok(m) => m,
        Err(_) => panic!("boot image refused"),
    }
}

#[test]
fn boot_overlay_of_the_monochrome_machine() {
    let mut mmu = mmu(true);
    assert_eq!(mmu.read_byte(0x0000), 0xb1);
    assert_eq!(mmu.read_byte(0x00ff), 0xb0);
    assert_eq!(mmu.read_byte(0x0100), (0x100 % 251) as u8);
    assert_eq!(mmu.read_byte(0x0200), (0x200 % 251) as u8);
    mmu.write_byte(0xff50, 0x01);
    assert_eq!(mmu.read_byte(0x0000), 0);
    assert_eq!(mmu.read_byte(0x00ff), (0xff % 251) as u8);
}

#[test]
fn boot_overlay_of_the_colour_machine() {
    let mut mmu = mmu(false);
    assert_eq!(mmu.read_byte(0x0000), 0xb1);
    assert_eq!(mmu.read_byte(0x0100), (0x100 % 251) as u8);
    assert_eq!(mmu.read_byte(0x01ff), (0x1ff % 251) as u8);
    assert_eq!(mmu.read_byte(0x0200), 0xb0);
    assert_eq!(mmu.read_byte(0x08ff), 0xb0);
    assert_eq!(mmu.read_byte(0x0900), (0x900 % 251) as u8);
    // the overlay stays when the machine enters compatibility mode
    mmu.write_byte(0xff4c, 0x04);
    assert!(mmu.dmg_mode);
    assert!(mmu.ppu.dmg_compatibility);
    assert_eq!(mmu.read_byte(0x0200), 0xb0);
    mmu.write_byte(0xff50, 0x01);
    assert_eq!(mmu.read_byte(0x0200), (0x200 % 251) as u8);
}

#[test]
fn missing_boot_rom() {
    let boot = vec![0u8; 0x8ff];
    match Mmu::new(&boot, cartridge(), false) {
        Ok(_) => panic!("short boot image accepted"),
        Err(e) => assert_eq!(e, MmuError::MissingBootRom),
    }
    assert!(Mmu::new(&boot, cartridge(), true).is_ok());
    assert!(Mmu::new(&[], cartridge(), true).is_err());
}

#[test]
fn working_ram_banks_and_echo() {
    let mut mmu = mmu(false);
    mmu.write_byte(0xc000, 0x10);
    mmu.write_byte(0xd000, 0x11);
    assert_eq!(mmu.read_byte(0xe000), 0x10);
    assert_eq!(mmu.read_byte(0xf000), 0x11);
    mmu.write_byte(0xfdff, 0x12);
    assert_eq!(mmu.read_byte(0xddff), 0x12);
    // bank 0 behaves as bank 1
    assert_eq!(mmu.read_byte(0xff70), 0);
    mmu.write_byte(0xff70, 0x01);
    assert_eq!(mmu.read_byte(0xd000), 0x11);
    mmu.write_byte(0xff70, 0xff);
    assert_eq!(mmu.read_byte(0xff70), 7);
    assert_eq!(mmu.read_byte(0xd000), 0x00);
    mmu.write_byte(0xd000, 0x77);
    assert_eq!(mmu.wram[0x7000], 0x77);
    assert_eq!(mmu.read_byte(0xc000), 0x10);
    mmu.write_byte(0xff70, 0x00);
    assert_eq!(mmu.read_byte(0xd000), 0x11);
}

#[test]
fn high_ram_and_unmapped_addresses() {
    let mut mmu = mmu(false);
    mmu.write_byte(0xff80, 0x01);
    mmu.write_byte(0xfffe, 0x02);
    assert_eq!(mmu.read_byte(0xff80), 0x01);
    assert_eq!(mmu.read_byte(0xfffe), 0x02);
    mmu.write_byte(0xfea0, 0x55);
    assert_eq!(mmu.read_byte(0xfea0), 0xff);
    assert_eq!(mmu.read_byte(0xfeff), 0xff);
    assert_eq!(mmu.read_byte(0xff03), 0xff);
    mmu.write_byte(0xff03, 0x12);
    assert_eq!(mmu.read_byte(0xff7f), 0xff);
    assert_eq!(mmu.read_byte(0x1_0000), 0xff);
    mmu.write_byte(0x1_0000, 0x12);
    mmu.write_byte(0xffff, 0x15);
    assert_eq!(mmu.read_byte(0xffff), 0xf5);
}

#[test]
fn registers_are_routed_to_their_units() {
    let mut mmu = mmu(false);
    mmu.joypad.set_values(0x01, 0x02);
    mmu.write_byte(0xff00, 0x20);
    assert_eq!(mmu.read_byte(0xff00), 0xed);
    mmu.write_byte(0xff01, 0x42);
    assert_eq!(mmu.read_byte(0xff01), 0x42);
    mmu.write_byte(0xff06, 0x99);
    assert_eq!(mmu.read_byte(0xff06), 0x99);
    mmu.write_byte(0xff0f, 0x03);
    assert_eq!(mmu.read_byte(0xff0f), 0xe3);
    mmu.write_byte(0xff26, 0x80);
    mmu.write_byte(0xff25, 0x3c);
    assert_eq!(mmu.read_byte(0xff25), 0x3c);
    mmu.write_byte(0xff42, 0x21);
    assert_eq!(mmu.read_byte(0xff42), 0x21);
    mmu.write_byte(0xff40, 0x12);
    assert_eq!(mmu.read_byte(0xff40), 0x12);
    mmu.write_byte(0x8000, 0x5a);
    assert_eq!(mmu.read_byte(0x8000), 0x5a);
    mmu.write_byte(0xfe04, 0x6b);
    assert_eq!(mmu.read_byte(0xfe04), 0x6b);
    mmu.write_byte(0xa000, 0x7c);
    assert_eq!(mmu.read_byte(0xa000), 0x7c);
    assert_eq!(mmu.read_byte(0x4000), (0x4000 % 251) as u8);
}

#[test]
fn colour_registers_are_hidden_in_monochrome_mode() {
    let mut mmu = mmu(true);
    mmu.write_byte(0xff70, 0x03);
    assert_eq!(mmu.read_byte(0xff70), 0xff);
    assert_eq!(mmu.read_byte(0xff4f), 0xff);
    assert_eq!(mmu.read_byte(0xff51), 0xff);
    assert_eq!(mmu.read_byte(0xff55), 0xff);
    assert_eq!(mmu.read_byte(0xff68), 0xff);
    mmu.write_byte(0xff55, 0x00);
    assert!(!mmu.dma_config.active);
    assert_eq!(mmu.read_byte(0xff4d), 0x7e);
}

#[test]
fn status_write_can_raise_the_interrupt() {
    let mut mmu = mmu(false);
    // power-on mode is 2: enabling the OAM source raises the line
    mmu.write_byte(0xff41, 0x20);
    assert_eq!(mmu.read_byte(0xff0f) & 0x02, 0x02);
    mmu.write_byte(0xff0f, 0x00);
    mmu.write_byte(0xff41, 0x20);
    assert_eq!(mmu.read_byte(0xff0f) & 0x02, 0x00);
}

#[test]
fn sprite_table_dma() {
    let mut mmu = mmu(false);
    for i in 0..0xa0usize {
        mmu.write_byte(0xc000 + i, i as u8);
    }
    mmu.write_byte(0xfe00, 0x99);
    assert_eq!(mmu.read_byte(0xfe00), 0x99);
    mmu.write_byte(0xff46, 0xc0);
    assert_eq!(mmu.read_byte(0xff46), 0xc0);
    assert!(mmu.dma_config.dma_type == DmaType::Oam);
    assert!(!mmu.dma_config.cpu_halted(0));
    // the table is out of reach from the write on
    assert!(mmu.dma_config.active);
    assert_eq!(mmu.read_byte(0xfe00), 0xff);
    for _ in 0..160 {
        mmu.execute_cycle();
        assert!(mmu.dma_config.active);
        assert_eq!(mmu.read_byte(0xfe00), 0xff);
        assert_eq!(mmu.read_byte(0xfe9f), 0xff);
        mmu.write_byte(0xfe10, 0xee);
    }
    mmu.execute_cycle();
    assert!(!mmu.dma_config.active);
    for i in 0..0xa0usize {
        assert_eq!(mmu.ppu.sprite_attribute_table[i], i as u8);
        assert_eq!(mmu.read_byte(0xfe00 + i), i as u8);
    }
    // a further step changes nothing
    mmu.execute_cycle();
    assert!(!mmu.dma_config.active);
    assert_eq!(mmu.read_byte(0xfe10), 0x10);
    mmu.write_byte(0xfe10, 0xee);
    assert_eq!(mmu.read_byte(0xfe10), 0xee);
}

#[test]
fn sprite_table_takes_writes_during_other_transfers() {
    let mut mmu = mmu(false);
    mmu.write_byte(0xff53, 0x10);
    mmu.write_byte(0xff55, 0x80);
    assert!(mmu.dma_config.active);
    assert!(mmu.dma_config.dma_type == DmaType::Hblank);
    mmu.write_byte(0xfe00, 0x42);
    assert_eq!(mmu.read_byte(0xfe00), 0x42);
}

#[test]
fn divider_write_can_request_the_timer_interrupt() {
    let mut mmu = mmu(false);
    mmu.write_byte(0xff06, 0x7b);
    mmu.write_byte(0xff05, 0xff);
    mmu.write_byte(0xff07, 0x05);
    mmu.timer.divider_tick = 0x0008;
    mmu.write_byte(0xff04, 0x00);
    assert_eq!(mmu.read_byte(0xff05), 0x7b);
    assert_eq!(mmu.read_byte(0xff0f) & 0x04, 0x04);
    assert_eq!(mmu.read_byte(0xff04), 0x00);
    // with the timer disabled the write only clears the divider
    mmu.write_byte(0xff0f, 0x00);
    mmu.write_byte(0xff05, 0xff);
    mmu.write_byte(0xff07, 0x01);
    mmu.timer.divider_tick = 0x0008;
    mmu.write_byte(0xff04, 0x00);
    assert_eq!(mmu.read_byte(0xff05), 0xff);
    assert_eq!(mmu.read_byte(0xff0f) & 0x04, 0x00);
    assert_eq!(mmu.timer.divider_tick, 0);
}

#[test]
fn bank_registers_of_the_colour_machine_ignore_writes_in_monochrome_mode() {
    let mut mmu = mmu(true);
    mmu.write_byte(0xd000, 0x11);
    mmu.write_byte(0xff70, 0x03);
    assert_eq!(mmu.wram_bank_sel, 0);
    assert_eq!(mmu.read_byte(0xd000), 0x11);
    mmu.write_byte(0x8000, 0x22);
    mmu.write_byte(0xff4f, 0x01);
    assert_eq!(mmu.ppu.vram_bank_sel, 0);
    assert_eq!(mmu.read_byte(0x8000), 0x22);
}

#[test]
fn general_purpose_dma() {
    let mut mmu = mmu(false);
    for i in 0..0x40usize {
        mmu.write_byte(0xc100 + i, (i + 1) as u8);
    }
    mmu.write_byte(0xff51, 0xc1);
    mmu.write_byte(0xff52, 0x0f);
    mmu.write_byte(0xff53, 0x01);
    mmu.write_byte(0xff54, 0x2f);
    assert_eq!(mmu.read_byte(0xff51), 0xc1);
    assert_eq!(mmu.read_byte(0xff52), 0x0f);
    assert_eq!(mmu.read_byte(0xff53), 0x81);
    assert_eq!(mmu.read_byte(0xff54), 0x20);
    mmu.write_byte(0xff55, 0x01);
    assert!(mmu.dma_config.dma_type == DmaType::GeneralPurpose);
    assert!(mmu.dma_config.cpu_halted(3));
    assert_eq!(mmu.read_byte(0xff55), 0xff);
    for _ in 0..0x20 {
        assert!(mmu.dma_config.active);
        mmu.execute_cycle();
    }
    assert!(mmu.dma_config.active);
    mmu.execute_cycle();
    assert!(!mmu.dma_config.active);
    assert!(!mmu.dma_config.cpu_halted(3));
    for i in 0..0x20usize {
        assert_eq!(mmu.read_byte(0x8120 + i), (0x0f + i + 1) as u8);
    }
    assert_eq!(mmu.read_byte(0x8140), 0);
}

#[test]
fn hblank_dma_copies_sixteen_bytes_per_hblank() {
    let mut mmu = mmu(false);
    for i in 0..0x30usize {
        mmu.write_byte(0xc200 + i, (0x80 + i) as u8);
    }
    mmu.write_byte(0xff51, 0xc2);
    mmu.write_byte(0xff52, 0x00);
    mmu.write_byte(0xff53, 0x10);
    mmu.write_byte(0xff54, 0x00);
    mmu.write_byte(0xff55, 0x82);
    assert!(mmu.dma_config.dma_type == DmaType::Hblank);
    assert_eq!(mmu.read_byte(0xff55), 0x02);
    // power-on mode is 2: nothing is copied, and the CPU runs
    assert!(!mmu.dma_config.cpu_halted(mmu.ppu.lcd_status.mode));
    for _ in 0..40 {
        mmu.execute_cycle();
    }
    assert_eq!(mmu.read_byte(0x9000), 0);
    mmu.ppu.lcd_status.mode = 0;
    assert!(mmu.dma_config.cpu_halted(0));
    for _ in 0..40 {
        mmu.execute_cycle();
    }
    assert!(!mmu.dma_config.cpu_halted(0));
    assert_eq!(mmu.read_byte(0x9000), 0x80);
    assert_eq!(mmu.read_byte(0x900f), 0x8f);
    assert_eq!(mmu.read_byte(0x9010), 0);
    assert_eq!(mmu.read_byte(0xff55), 0x01);
    mmu.ppu.lcd_status.mode = 2;
    mmu.execute_cycle();
    mmu.ppu.lcd_status.mode = 0;
    for _ in 0..16 {
        mmu.execute_cycle();
    }
    assert_eq!(mmu.read_byte(0x901f), 0x9f);
    // a write with bit 7 clear stops the transfer
    mmu.write_byte(0xff55, 0x00);
    assert!(!mmu.dma_config.active);
    assert_eq!(mmu.read_byte(0xff55), 0x80);
}

#[test]
fn idle_dma_state() {
    let dma = DmaConfig::default();
    assert!(!dma.active);
    assert!(!dma.cpu_halted(0));
    assert!(dma.dma_type == DmaType::Oam);
    let mut mmu = mmu(false);
    mmu.execute_cycle();
    assert!(!mmu.dma_config.active);
    assert_eq!(mmu.read_byte(0xff55), 0xff);
}

#[test]
fn speed_switch() {
    let mut mmu = mmu(false);
    assert_eq!(mmu.read_byte(0xff4d), 0x7e);
    mmu.switch_speed();
    assert!(!mmu.double_speed);
    mmu.write_byte(0xff4d, 0x01);
    assert_eq!(mmu.read_byte(0xff4d), 0x7f);
    mmu.switch_speed();
    assert!(mmu.double_speed);
    assert_eq!(mmu.read_byte(0xff4d), 0xfe);
    mmu.write_byte(0xff4d, 0x01);
    mmu.switch_speed();
    assert!(!mmu.double_speed);
}
